//! Where a message travels and what type it is.
use vstd::prelude::*;

use crate::ygopro::message::ctos;
use crate::ygopro::message::gm;
use crate::ygopro::message::stoc;
use crate::text::{push_str, string_of};

verus! {

/// Point out where the message comes from and goes to.
#[derive(Copy, Clone, Debug, PartialEq, Eq, Structural, Hash)]
pub enum Direction {
    /// Message is from server to client.
    STOC,
    /// Message is from client to server.
    CTOS,
    /// Srvpru internal message.
    SRVPRU,
}

/// Point out what type a message is, divided by a [`Direction`].
#[derive(Copy, Clone, Debug, PartialEq, Eq, Structural, Hash)]
pub enum MessageType {
    /// Message is a type from server to client.
    STOC(stoc::MessageType),
    /// A game message, looked into by its kind.
    GM(gm::MessageType),
    /// Message is a type from client to server.
    CTOS(ctos::MessageType),
    /// Message is a type inner srvpru.
    SRVPRU(crate::srvpru::message::MessageType),
}

impl MessageType {
    /// The type byte that stands for this type in a message header.
    /// A game message of any kind travels as a server-to-client game message.
    pub open spec fn spec_code(self) -> u8 {
        match self {
            MessageType::STOC(t) => t.spec_value(),
            MessageType::GM(_) => stoc::MessageType::GameMessage.spec_value(),
            MessageType::CTOS(t) => t.spec_value(),
            MessageType::SRVPRU(t) => t.spec_value(),
        }
    }

    /// The type byte of this type in a message header.
    pub fn into_u8(self) -> (r: u8)
        ensures
            r == self.spec_code(),
    {
        match self {
            MessageType::STOC(t) => t.into_u8(),
            MessageType::GM(_) => stoc::MessageType::GameMessage.into_u8(),
            MessageType::CTOS(t) => t.into_u8(),
            MessageType::SRVPRU(t) => t.into_u8(),
        }
    }

    /// The direction that a message of this type travels in: a game message
    /// travels from server to client.
    pub open spec fn spec_direction(self) -> Direction {
        match self {
            MessageType::STOC(_) => Direction::STOC,
            MessageType::GM(_) => Direction::STOC,
            MessageType::CTOS(_) => Direction::CTOS,
            MessageType::SRVPRU(_) => Direction::SRVPRU,
        }
    }

    pub fn direction(self) -> (r: Direction)
        ensures
            r == self.spec_direction(),
    {
        match self {
            MessageType::STOC(_) => Direction::STOC,
            MessageType::GM(_) => Direction::STOC,
            MessageType::CTOS(_) => Direction::CTOS,
            MessageType::SRVPRU(_) => Direction::SRVPRU,
        }
    }
}


impl Direction {
    /// The name of this direction.
    pub open spec fn spec_name(self) -> Seq<char> {
        match self {
            Direction::STOC => "STOC"@,
            Direction::CTOS => "CTOS"@,
            Direction::SRVPRU => "SRVPRU"@,
        }
    }

    /// The name of this direction.
    pub fn name(self) -> (r: &'static str)
        ensures
            r@ == self.spec_name(),
    {
        match self {
            Direction::STOC => "STOC",
            Direction::CTOS => "CTOS",
            Direction::SRVPRU => "SRVPRU",
        }
    }
}

impl MessageType {
    /// How a message type is shown: its direction, a space, and its name.
    pub open spec fn spec_text(self) -> Seq<char> {
        match self {
            MessageType::STOC(t) => "STOC "@ + t.spec_name(),
            MessageType::GM(t) => "GM "@ + t.spec_name(),
            MessageType::CTOS(t) => "CTOS "@ + t.spec_name(),
            MessageType::SRVPRU(t) => "SRVPRU "@ + t.spec_name(),
        }
    }

    /// How a message type is shown.
    pub fn to_string(self) -> (r: String)
        ensures
            r@ == self.spec_text(),
    {
        let mut out: Vec<char> = Vec::new();
        match self {
            MessageType::STOC(t) => { push_str(&mut out, "STOC "); push_str(&mut out, t.name()); },
            MessageType::GM(t) => { push_str(&mut out, "GM "); push_str(&mut out, t.name()); },
            MessageType::CTOS(t) => { push_str(&mut out, "CTOS "); push_str(&mut out, t.name()); },
            MessageType::SRVPRU(t) => { push_str(&mut out, "SRVPRU "); push_str(&mut out, t.name()); },
        }
        string_of(out.as_slice())
    }
}

} // verus!
