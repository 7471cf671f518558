//! Message types that srvpru raises itself, and the messages that carry
//! errors of listening to a socket.
use vstd::prelude::*;

use crate::srvpru::processor::{ListenError, ProcessorError};
use crate::ygopro::message::MappedStruct;

verus! {

/// Message types that srvpru itself raises.
#[derive(Copy, Clone, Debug, PartialEq, Eq, Structural, Hash)]
pub enum MessageType {
    StructSequence,
    RoomCreated,
    PlayerDestroy,
    PlayerMove,
    RoomDestroy,
    StocProcessError,
    CtosProcessError,
    InternalProcessError,
    StocListenError,
    CtosListenError,
    LpChange,
    ServerStart,
    Reload,
}

impl MessageType {
    /// The number that stands for this value on the wire.
    pub open spec fn spec_value(self) -> u8 {
        match self {
            MessageType::StructSequence => 0,
            MessageType::RoomCreated => 1,
            MessageType::PlayerDestroy => 2,
            MessageType::PlayerMove => 3,
            MessageType::RoomDestroy => 4,
            MessageType::StocProcessError => 5,
            MessageType::CtosProcessError => 6,
            MessageType::InternalProcessError => 7,
            MessageType::StocListenError => 8,
            MessageType::CtosListenError => 9,
            MessageType::LpChange => 10,
            MessageType::ServerStart => 11,
            MessageType::Reload => 12,
        }
    }

    /// The value that a wire number stands for, if any.
    #[verifier::opaque]
    pub open spec fn spec_try_from(v: u8) -> Option<MessageType> {
        if v == 0 { Some(MessageType::StructSequence) } else if v == 1 { Some(MessageType::RoomCreated) } else
        if v == 2 { Some(MessageType::PlayerDestroy) } else if v == 3 { Some(MessageType::PlayerMove) } else
        if v == 4 { Some(MessageType::RoomDestroy) } else if v == 5 { Some(MessageType::StocProcessError) } else
        if v == 6 { Some(MessageType::CtosProcessError) } else if v == 7 { Some(MessageType::InternalProcessError) } else
        if v == 8 { Some(MessageType::StocListenError) } else if v == 9 { Some(MessageType::CtosListenError) } else
        if v == 10 { Some(MessageType::LpChange) } else if v == 11 { Some(MessageType::ServerStart) } else
        if v == 12 { Some(MessageType::Reload) } else { None }
    }

    pub fn into_u8(self) -> (r: u8)
        ensures
            r == self.spec_value(),
    {
        match self {
            MessageType::StructSequence => 0,
            MessageType::RoomCreated => 1,
            MessageType::PlayerDestroy => 2,
            MessageType::PlayerMove => 3,
            MessageType::RoomDestroy => 4,
            MessageType::StocProcessError => 5,
            MessageType::CtosProcessError => 6,
            MessageType::InternalProcessError => 7,
            MessageType::StocListenError => 8,
            MessageType::CtosListenError => 9,
            MessageType::LpChange => 10,
            MessageType::ServerStart => 11,
            MessageType::Reload => 12,
        }
    }

    pub fn try_from_u8(v: u8) -> (r: Option<MessageType>)
        ensures
            r == Self::spec_try_from(v),
    {
        proof { reveal(MessageType::spec_try_from); }
        if v == 0 { return Some(MessageType::StructSequence); }
        if v == 1 { return Some(MessageType::RoomCreated); }
        if v == 2 { return Some(MessageType::PlayerDestroy); }
        if v == 3 { return Some(MessageType::PlayerMove); }
        if v == 4 { return Some(MessageType::RoomDestroy); }
        if v == 5 { return Some(MessageType::StocProcessError); }
        if v == 6 { return Some(MessageType::CtosProcessError); }
        if v == 7 { return Some(MessageType::InternalProcessError); }
        if v == 8 { return Some(MessageType::StocListenError); }
        if v == 9 { return Some(MessageType::CtosListenError); }
        if v == 10 { return Some(MessageType::LpChange); }
        if v == 11 { return Some(MessageType::ServerStart); }
        if v == 12 { return Some(MessageType::Reload); }
        None
    }

    /// Every value survives the trip through its number, and every number
    /// that stands for a value is that value's number.
    pub proof fn lemma_value_roundtrip(self, v: u8)
        ensures
            Self::spec_try_from(self.spec_value()) == Some(self),
            Self::spec_try_from(v) matches Some(x) ==> x.spec_value() == v,
    {
        reveal(MessageType::spec_try_from);
    }
}

/// The general message type of an internal message type.
pub fn generate_message_type(_type: MessageType) -> (r: crate::ygopro::message::MessageType)
    ensures
        r == crate::ygopro::message::MessageType::SRVPRU(_type),
{
    crate::ygopro::message::MessageType::SRVPRU(_type)
}

impl MessageType {
    /// The name of this value.
    pub open spec fn spec_name(self) -> Seq<char> {
        match self {
            MessageType::StructSequence => "StructSequence"@,
            MessageType::RoomCreated => "RoomCreated"@,
            MessageType::PlayerDestroy => "PlayerDestroy"@,
            MessageType::PlayerMove => "PlayerMove"@,
            MessageType::RoomDestroy => "RoomDestroy"@,
            MessageType::StocProcessError => "StocProcessError"@,
            MessageType::CtosProcessError => "CtosProcessError"@,
            MessageType::InternalProcessError => "InternalProcessError"@,
            MessageType::StocListenError => "StocListenError"@,
            MessageType::CtosListenError => "CtosListenError"@,
            MessageType::LpChange => "LpChange"@,
            MessageType::ServerStart => "ServerStart"@,
            MessageType::Reload => "Reload"@,
        }
    }

    /// The name of this value.
    pub fn name(self) -> (r: &'static str)
        ensures
            r@ == self.spec_name(),
    {
        match self {
            MessageType::StructSequence => "StructSequence",
            MessageType::RoomCreated => "RoomCreated",
            MessageType::PlayerDestroy => "PlayerDestroy",
            MessageType::PlayerMove => "PlayerMove",
            MessageType::RoomDestroy => "RoomDestroy",
            MessageType::StocProcessError => "StocProcessError",
            MessageType::CtosProcessError => "CtosProcessError",
            MessageType::InternalProcessError => "InternalProcessError",
            MessageType::StocListenError => "StocListenError",
            MessageType::CtosListenError => "CtosListenError",
            MessageType::LpChange => "LpChange",
            MessageType::ServerStart => "ServerStart",
            MessageType::Reload => "Reload",
        }
    }
}

/// A room was created.
#[derive(Clone, Debug)]
pub struct RoomCreated {
    /// The name of the room.
    pub room: String,
}

impl MappedStruct for RoomCreated {
    open spec fn spec_message() -> crate::ygopro::message::MessageType {
        crate::ygopro::message::MessageType::SRVPRU(MessageType::RoomCreated)
    }

    fn message() -> (r: crate::ygopro::message::MessageType) {
        crate::ygopro::message::MessageType::SRVPRU(MessageType::RoomCreated)
    }
}

/// A player left.
#[derive(Clone, Debug)]
pub struct PlayerDestroy {
    /// The name of the player.
    pub player: String,
}

impl MappedStruct for PlayerDestroy {
    open spec fn spec_message() -> crate::ygopro::message::MessageType {
        crate::ygopro::message::MessageType::SRVPRU(MessageType::PlayerDestroy)
    }

    fn message() -> (r: crate::ygopro::message::MessageType) {
        crate::ygopro::message::MessageType::SRVPRU(MessageType::PlayerDestroy)
    }
}

/// A room ended.
#[derive(Clone, Debug)]
pub struct RoomDestroy {
    /// The name of the room.
    pub room: String,
}

impl MappedStruct for RoomDestroy {
    open spec fn spec_message() -> crate::ygopro::message::MessageType {
        crate::ygopro::message::MessageType::SRVPRU(MessageType::RoomDestroy)
    }

    fn message() -> (r: crate::ygopro::message::MessageType) {
        crate::ygopro::message::MessageType::SRVPRU(MessageType::RoomDestroy)
    }
}

/// A player came back on a new connection.
#[derive(Clone, Debug)]
pub struct PlayerMove {
    /// The name of the player who left.
    pub post_player: String,
    /// The name of the player who came back.
    pub new_player: String,
}

impl MappedStruct for PlayerMove {
    open spec fn spec_message() -> crate::ygopro::message::MessageType {
        crate::ygopro::message::MessageType::SRVPRU(MessageType::PlayerMove)
    }

    fn message() -> (r: crate::ygopro::message::MessageType) {
        crate::ygopro::message::MessageType::SRVPRU(MessageType::PlayerMove)
    }
}

/// Processing a server-to-client buffer failed.
#[derive(Clone, Debug)]
pub struct StocProcessError {
    pub error: ProcessorError,
}

impl MappedStruct for StocProcessError {
    open spec fn spec_message() -> crate::ygopro::message::MessageType {
        crate::ygopro::message::MessageType::SRVPRU(MessageType::StocProcessError)
    }

    fn message() -> (r: crate::ygopro::message::MessageType) {
        crate::ygopro::message::MessageType::SRVPRU(MessageType::StocProcessError)
    }
}

/// Processing a client-to-server buffer failed.
#[derive(Clone, Debug)]
pub struct CtosProcessError {
    pub error: ProcessorError,
}

impl MappedStruct for CtosProcessError {
    open spec fn spec_message() -> crate::ygopro::message::MessageType {
        crate::ygopro::message::MessageType::SRVPRU(MessageType::CtosProcessError)
    }

    fn message() -> (r: crate::ygopro::message::MessageType) {
        crate::ygopro::message::MessageType::SRVPRU(MessageType::CtosProcessError)
    }
}

/// Processing an internal message failed.
#[derive(Clone, Debug)]
pub struct InternalProcessError {
    pub error: ProcessorError,
}

impl MappedStruct for InternalProcessError {
    open spec fn spec_message() -> crate::ygopro::message::MessageType {
        crate::ygopro::message::MessageType::SRVPRU(MessageType::InternalProcessError)
    }

    fn message() -> (r: crate::ygopro::message::MessageType) {
        crate::ygopro::message::MessageType::SRVPRU(MessageType::InternalProcessError)
    }
}

/// Listening to the duel server failed.
#[derive(Clone, Debug)]
pub struct StocListenError {
    pub error: ListenError,
}

impl MappedStruct for StocListenError {
    open spec fn spec_message() -> crate::ygopro::message::MessageType {
        crate::ygopro::message::MessageType::SRVPRU(MessageType::StocListenError)
    }

    fn message() -> (r: crate::ygopro::message::MessageType) {
        crate::ygopro::message::MessageType::SRVPRU(MessageType::StocListenError)
    }
}

/// Listening to a client failed.
#[derive(Clone, Debug)]
pub struct CtosListenError {
    pub error: ListenError,
}

impl MappedStruct for CtosListenError {
    open spec fn spec_message() -> crate::ygopro::message::MessageType {
        crate::ygopro::message::MessageType::SRVPRU(MessageType::CtosListenError)
    }

    fn message() -> (r: crate::ygopro::message::MessageType) {
        crate::ygopro::message::MessageType::SRVPRU(MessageType::CtosListenError)
    }
}

/// A player's life points changed.
#[derive(Clone, Debug)]
pub struct LpChange {
    /// The name of the player.
    pub player: String,
    /// The new life points.
    pub lp: i32,
}

impl MappedStruct for LpChange {
    open spec fn spec_message() -> crate::ygopro::message::MessageType {
        crate::ygopro::message::MessageType::SRVPRU(MessageType::LpChange)
    }

    fn message() -> (r: crate::ygopro::message::MessageType) {
        crate::ygopro::message::MessageType::SRVPRU(MessageType::LpChange)
    }
}

/// The server started.
#[derive(Clone, Debug)]
pub struct ServerStart;

impl MappedStruct for ServerStart {
    open spec fn spec_message() -> crate::ygopro::message::MessageType {
        crate::ygopro::message::MessageType::SRVPRU(MessageType::ServerStart)
    }

    fn message() -> (r: crate::ygopro::message::MessageType) {
        crate::ygopro::message::MessageType::SRVPRU(MessageType::ServerStart)
    }
}

/// Configurations are to be read again.
#[derive(Clone, Debug)]
pub struct Reload;

impl MappedStruct for Reload {
    open spec fn spec_message() -> crate::ygopro::message::MessageType {
        crate::ygopro::message::MessageType::SRVPRU(MessageType::Reload)
    }

    fn message() -> (r: crate::ygopro::message::MessageType) {
        crate::ygopro::message::MessageType::SRVPRU(MessageType::Reload)
    }
}

} // verus!
