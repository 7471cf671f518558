//! Several messages sent in one shot.
use vstd::prelude::*;

use crate::ygopro::message::generate::{spec_wrap, wrap_data};
use crate::ygopro::message::utils::Message;
use crate::ygopro::message::MessageType;

verus! {

/// Several framed messages sent together. The bytes of a sequence are
/// already framed, so a sequence goes out under the internal type
/// `StructSequence`, which adds no header of its own.
pub trait StructSequence: View + Sized {
    /// The framed messages, one after another.
    spec fn spec_serialize(v: Self::V) -> Seq<u8>;

    fn serialize(&self) -> (r: Vec<u8>)
        ensures
            r@ == Self::spec_serialize(self@),
    ;

    /// The type that a sequence travels under.
    fn message() -> (r: MessageType)
        ensures
            r == MessageType::SRVPRU(crate::srvpru::message::MessageType::StructSequence),
    {
        MessageType::SRVPRU(crate::srvpru::message::MessageType::StructSequence)
    }
}

/// A run of message bodies, framed in order.
#[derive(Clone, Debug)]
pub struct MessageSequence {
    pub messages: Vec<Message>,
}

/// The frames of `ms`, one after another.
pub open spec fn frames(ms: Seq<Message>) -> Seq<u8>
    decreases ms.len(),
{
    if ms.len() == 0 {
        Seq::empty()
    } else {
        frames(ms.drop_last()) + spec_wrap(ms.last().spec_message_type(), ms.last().spec_bytes())
    }
}

impl View for MessageSequence {
    type V = Seq<Message>;

    open spec fn view(&self) -> Seq<Message> {
        self.messages@
    }
}

impl StructSequence for MessageSequence {
    open spec fn spec_serialize(v: Seq<Message>) -> Seq<u8> {
        frames(v)
    }

    fn serialize(&self) -> (r: Vec<u8>) {
        let mut out: Vec<u8> = Vec::new();
        let mut i: usize = 0;
        while i < self.messages.len()
            invariant
                i <= self.messages@.len(),
                out@ == frames(self.messages@.take(i as int)),
            decreases self.messages@.len() - i,
        {
            let m = &self.messages[i];
            let body = m.serialize();
            let framed = wrap_data(m.message_type(), body.as_slice());
            let mut k: usize = 0;
            let ghost before = out@;
            while k < framed.len()
                invariant
                    k <= framed@.len(),
                    out@ == before + framed@.take(k as int),
                decreases framed@.len() - k,
            {
                out.push(framed[k]);
                k = k + 1;
                assert(out@ =~= before + framed@.take(k as int));
            }
            assert(framed@.take(k as int) =~= framed@);
            assert(self.messages@.take(i + 1).drop_last() =~= self.messages@.take(i as int));
            i = i + 1;
        }
        assert(self.messages@.take(i as int) =~= self.messages@);
        out
    }
}

} // verus!
