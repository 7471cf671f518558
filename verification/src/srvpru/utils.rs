//! Chat lines from the server, and the errors that plugins share.
use vstd::prelude::*;

use crate::srvpru::i18n::{spec_render, I18n};
use crate::text::{push_str, string_of};
use crate::ygopro::constants::Colors;
use crate::ygopro::message::stoc;
use crate::ygopro::message::sequence::{frames, StructSequence};
use crate::ygopro::message::string::{cast_to_c_array, cast_to_string, spec_cast_to_string, utf16_of};
use crate::ygopro::message::utils::Message;
use crate::ygopro::message::MessageSequence;

verus! {

/// Errors that plugins share.
#[derive(Copy, Clone, Debug, PartialEq, Eq, Structural)]
pub enum CommonError {
    /// The socket was already taken.
    SocketTaken,
    /// The player does not exist.
    PlayerNotExist,
    /// The room does not exist.
    RoomNotExist,
    /// A string could not be read.
    IllegalString,
    /// A parameter has another type.
    IllegalType,
}

/// A chat line without any processing, in a colour.
pub fn generate_raw_chat(message: &str, color: Colors) -> (r: stoc::Chat)
    ensures
        r.name == color.spec_value() as u16,
        r.msg@ == utf16_of(message@).push(0),
{
    stoc::Chat { name: color.into_u8() as u16, msg: cast_to_c_array(message) }
}

/// The text of a chat line from the server: a `[Server]: ` prefix, then the
/// message translated for `region`.
pub open spec fn server_chat_text(i18n: Map<Seq<char>, Seq<(Seq<char>, Seq<char>)>>, message: Seq<char>, region: Seq<char>) -> Seq<char> {
    "[Server]: "@ + spec_render(i18n, message, region)
}

/// A chat line from the server, translated for `region`.
pub fn generate_chat(message: &str, color: Colors, region: &str, i18n: &I18n) -> (r: stoc::Chat)
    requires
        i18n.wf(),
    ensures
        r.name == color.spec_value() as u16,
        r.msg@ == utf16_of(server_chat_text(i18n@, message@, region@)).push(0),
{
    let rendered = i18n.render(message, region);
    let mut text: Vec<char> = Vec::new();
    push_str(&mut text, "[Server]: ");
    push_str(&mut text, rendered.as_str());
    let line = string_of(text.as_slice());
    generate_raw_chat(line.as_str(), color)
}

/// The error that refuses a join.
pub open spec fn join_error_view(m: stoc::ErrorMessageView) -> bool {
    m.msg == crate::ygopro::constants::ErrorMessage::Joinerror && m.align == seq![0u8, 0u8, 0u8] && m.code == 2
}

/// What a client whose join is refused receives: the reason, where there
/// is one, as a red chat line from the server translated for `region`, then
/// an error that refuses the join. Processing stops after it.
pub fn refuse_join_game(message: Option<&str>, region: &str, i18n: &I18n) -> (r: Vec<u8>)
    requires
        i18n.wf(),
    ensures
        exists|ms: Seq<Message>| r@ == frames(ms) && match message {
            Some(text) => ms.len() == 2
                && (ms[0] matches Message::StocChat(c) && c.name == Colors::Red.spec_value() as u16
                    && c.msg@ == utf16_of(server_chat_text(i18n@, text@, region@)).push(0))
                && (ms[1] matches Message::StocErrorMessage(e) && join_error_view(e@)),
            None => ms.len() == 1 && (ms[0] matches Message::StocErrorMessage(e) && join_error_view(e@)),
        },
{
    let refuse = stoc::ErrorMessage { msg: crate::ygopro::constants::ErrorMessage::Joinerror, align: [0u8; 3], code: 2 };
    assert(refuse@.align =~= seq![0u8, 0u8, 0u8]);
    let mut messages: Vec<Message> = Vec::new();
    match message {
        Some(text) => {
            messages.push(Message::StocChat(generate_chat(text, Colors::Red, region, i18n)));
        },
        None => {},
    }
    messages.push(Message::StocErrorMessage(refuse));
    let sequence = MessageSequence { messages };
    sequence.serialize()
}

/// The text of a name or password field, or an illegal-string error where
/// it holds no NUL or no valid UTF-16.
pub fn get_string(array: &[u16]) -> (r: Result<String, CommonError>)
    requires
        array@.len() <= 0x1fff_ffff,
    ensures
        match spec_cast_to_string(array@) {
            Some(t) => r matches Ok(s) && s@ == t,
            None => r == Err::<String, CommonError>(CommonError::IllegalString),
        },
{
    match cast_to_string(array) {
        Some(s) => Ok(s),
        None => Err(CommonError::IllegalString),
    }
}

} // verus!
