//! Message headers: a little-endian length that counts the type byte and the
//! body, then the type byte, then the body.
use vstd::prelude::*;

use crate::ygopro::message::{MappedStruct, MessageType, Struct};

verus! {

/// Whether a message type stands for bytes that are already a run of
/// framed messages, which go out as they are.
pub open spec fn is_sequence(t: MessageType) -> bool {
    t == MessageType::SRVPRU(crate::srvpru::message::MessageType::StructSequence)
}

/// The framed message of type `t` with body `data`. The length field holds
/// the low sixteen bits of the body's length plus one.
pub open spec fn spec_wrap(t: MessageType, data: Seq<u8>) -> Seq<u8> {
    if is_sequence(t) {
        data
    } else {
        let size = data.len() + 1;
        seq![(size % 256) as u8, ((size / 256) % 256) as u8, t.spec_code()] + data
    }
}

/// Frame `data` as a message of type `message_type`.
pub fn wrap_data(message_type: MessageType, data: &[u8]) -> (r: Vec<u8>)
    ensures
        r@ == spec_wrap(message_type, data@),
{
    let mut message: Vec<u8> = Vec::new();
    if message_type == MessageType::SRVPRU(crate::srvpru::message::MessageType::StructSequence) {
        let mut i: usize = 0;
        while i < data.len()
            invariant
                i <= data@.len(),
                message@ == data@.take(i as int),
            decreases data@.len() - i,
        {
            message.push(data[i]);
            i = i + 1;
            assert(message@ =~= data@.take(i as int));
        }
        assert(data@.take(i as int) =~= data@);
        return message;
    }
    let len = data.len();
    // (len + 1) % 256 and ((len + 1) / 256) % 256, without overflow.
    let low: u8 = if len % 256 == 255 { 0 } else { (len % 256 + 1) as u8 };
    let carry: usize = if len % 256 == 255 { 1 } else { 0 };
    let high: u8 = ((len / 256 % 256 + carry) % 256) as u8;
    proof {
        let size = len + 1;
        assert(low == (size % 256) as u8);
        assert(high == ((size / 256) % 256) as u8);
    }
    message.push(low);
    message.push(high);
    message.push(message_type.into_u8());
    let mut i: usize = 0;
    while i < data.len()
        invariant
            i <= data@.len(),
            message@ == seq![low, high, message_type.spec_code()] + data@.take(i as int),
        decreases data@.len() - i,
    {
        message.push(data[i]);
        i = i + 1;
        assert(message@ =~= seq![low, high, message_type.spec_code()] + data@.take(i as int));
    }
    assert(data@.take(i as int) =~= data@);
    message
}

/// Frame a structure as a message of its own type.
pub fn wrap_mapped_struct<T: Struct + MappedStruct>(data: &T) -> (r: Vec<u8>)
    ensures
        r@ == spec_wrap(T::spec_message(), T::spec_serialize(data@)),
{
    let body = data.serialize();
    wrap_data(T::message(), body.as_slice())
}

/// Frame a structure as a message of type `message_type`.
pub fn wrap_struct<T: Struct>(message_type: MessageType, data: &T) -> (r: Vec<u8>)
    ensures
        r@ == spec_wrap(message_type, T::spec_serialize(data@)),
{
    let body = data.serialize();
    wrap_data(message_type, body.as_slice())
}

} // verus!
