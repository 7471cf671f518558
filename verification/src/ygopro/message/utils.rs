//! Message types from header bytes, message bodies from their bytes, and
//! message headers.
use vstd::prelude::*;

use crate::ygopro::message::ctos;
use crate::ygopro::message::gm;
use crate::ygopro::message::stoc;
use crate::ygopro::message::{Direction, MessageType, Struct};

verus! {

/// The message type that a header byte stands for in a direction; an
/// internal message has no header byte.
pub open spec fn spec_message_type(direction: Direction, type_number: u8) -> Option<MessageType> {
    match direction {
        Direction::CTOS => match ctos::MessageType::spec_try_from(type_number) {
            Some(t) => Some(MessageType::CTOS(t)),
            None => None,
        },
        Direction::STOC => match stoc::MessageType::spec_try_from(type_number) {
            Some(t) => Some(MessageType::STOC(t)),
            None => None,
        },
        Direction::SRVPRU => None,
    }
}

/// The message type of a header byte travelling in `direction`.
pub fn try_get_message_type(direction: Direction, type_number: u8) -> (r: Option<MessageType>)
    ensures
        r == spec_message_type(direction, type_number),
{
    match direction {
        Direction::CTOS => match ctos::MessageType::try_from_u8(type_number) {
            Some(t) => Some(MessageType::CTOS(t)),
            None => None,
        },
        Direction::STOC => match stoc::MessageType::try_from_u8(type_number) {
            Some(t) => Some(MessageType::STOC(t)),
            None => None,
        },
        Direction::SRVPRU => None,
    }
}

/// The body of a message between client and server, by its type.
#[derive(Clone, Debug)]
pub enum Message {
    CtosUpdateDeck(ctos::UpdateDeck),
    CtosHandResult(ctos::HandResult),
    CtosTpResult(ctos::TpResult),
    CtosPlayerInfo(ctos::PlayerInfo),
    CtosCreateGame(ctos::CreateGame),
    CtosJoinGame(ctos::JoinGame),
    CtosLeaveGame(ctos::LeaveGame),
    CtosSurrender(ctos::Surrender),
    CtosTimeConfirm(ctos::TimeConfirm),
    CtosChat(ctos::Chat),
    CtosHsToDuelist(ctos::HsToDuelist),
    CtosHsToOBServer(ctos::HsToOBServer),
    CtosHsReady(ctos::HsReady),
    CtosHsNotReady(ctos::HsNotReady),
    CtosHsKick(ctos::HsKick),
    CtosHsStart(ctos::HsStart),
    CtosRequestField(ctos::RequestField),
    StocGameMessage(gm::GameMessage),
    StocErrorMessage(stoc::ErrorMessage),
    StocSelectHand(stoc::SelectHand),
    StocSelectTp(stoc::SelectTp),
    StocHandResult(stoc::HandResult),
    StocTpResult(stoc::TpResult),
    StocChangeSide(stoc::ChangeSide),
    StocWaitingSide(stoc::WaitingSide),
    StocDeckCount(stoc::DeckCount),
    StocCreateGame(stoc::CreateGame),
    StocJoinGame(stoc::JoinGame),
    StocTypeChange(stoc::TypeChange),
    StocLeaveGame(stoc::LeaveGame),
    StocDuelStart(stoc::DuelStart),
    StocDuelEnd(stoc::DuelEnd),
    StocReplay(stoc::Replay),
    StocTimeLimit(stoc::TimeLimit),
    StocChat(stoc::Chat),
    StocHsPlayerEnter(stoc::HsPlayerEnter),
    StocHsPlayerChange(stoc::HsPlayerChange),
    StocHsWatchChange(stoc::HsWatchChange),
    StocFieldFinish(stoc::FieldFinish),
}

impl Message {
    /// The message type that this body belongs to.
    pub open spec fn spec_message_type(self) -> MessageType {
        match self {
            Message::CtosUpdateDeck(_) => MessageType::CTOS(ctos::MessageType::UpdateDeck),
            Message::CtosHandResult(_) => MessageType::CTOS(ctos::MessageType::HandResult),
            Message::CtosTpResult(_) => MessageType::CTOS(ctos::MessageType::TpResult),
            Message::CtosPlayerInfo(_) => MessageType::CTOS(ctos::MessageType::PlayerInfo),
            Message::CtosCreateGame(_) => MessageType::CTOS(ctos::MessageType::CreateGame),
            Message::CtosJoinGame(_) => MessageType::CTOS(ctos::MessageType::JoinGame),
            Message::CtosLeaveGame(_) => MessageType::CTOS(ctos::MessageType::LeaveGame),
            Message::CtosSurrender(_) => MessageType::CTOS(ctos::MessageType::Surrender),
            Message::CtosTimeConfirm(_) => MessageType::CTOS(ctos::MessageType::TimeConfirm),
            Message::CtosChat(_) => MessageType::CTOS(ctos::MessageType::Chat),
            Message::CtosHsToDuelist(_) => MessageType::CTOS(ctos::MessageType::HsToDuelist),
            Message::CtosHsToOBServer(_) => MessageType::CTOS(ctos::MessageType::HsToOBServer),
            Message::CtosHsReady(_) => MessageType::CTOS(ctos::MessageType::HsReady),
            Message::CtosHsNotReady(_) => MessageType::CTOS(ctos::MessageType::HsNotReady),
            Message::CtosHsKick(_) => MessageType::CTOS(ctos::MessageType::HsKick),
            Message::CtosHsStart(_) => MessageType::CTOS(ctos::MessageType::HsStart),
            Message::CtosRequestField(_) => MessageType::CTOS(ctos::MessageType::RequestField),
            Message::StocGameMessage(_) => MessageType::STOC(stoc::MessageType::GameMessage),
            Message::StocErrorMessage(_) => MessageType::STOC(stoc::MessageType::ErrorMessage),
            Message::StocSelectHand(_) => MessageType::STOC(stoc::MessageType::SelectHand),
            Message::StocSelectTp(_) => MessageType::STOC(stoc::MessageType::SelectTp),
            Message::StocHandResult(_) => MessageType::STOC(stoc::MessageType::HandResult),
            Message::StocTpResult(_) => MessageType::STOC(stoc::MessageType::TpResult),
            Message::StocChangeSide(_) => MessageType::STOC(stoc::MessageType::ChangeSide),
            Message::StocWaitingSide(_) => MessageType::STOC(stoc::MessageType::WaitingSide),
            Message::StocDeckCount(_) => MessageType::STOC(stoc::MessageType::DeckCount),
            Message::StocCreateGame(_) => MessageType::STOC(stoc::MessageType::CreateGame),
            Message::StocJoinGame(_) => MessageType::STOC(stoc::MessageType::JoinGame),
            Message::StocTypeChange(_) => MessageType::STOC(stoc::MessageType::TypeChange),
            Message::StocLeaveGame(_) => MessageType::STOC(stoc::MessageType::LeaveGame),
            Message::StocDuelStart(_) => MessageType::STOC(stoc::MessageType::DuelStart),
            Message::StocDuelEnd(_) => MessageType::STOC(stoc::MessageType::DuelEnd),
            Message::StocReplay(_) => MessageType::STOC(stoc::MessageType::Replay),
            Message::StocTimeLimit(_) => MessageType::STOC(stoc::MessageType::TimeLimit),
            Message::StocChat(_) => MessageType::STOC(stoc::MessageType::Chat),
            Message::StocHsPlayerEnter(_) => MessageType::STOC(stoc::MessageType::HsPlayerEnter),
            Message::StocHsPlayerChange(_) => MessageType::STOC(stoc::MessageType::HsPlayerChange),
            Message::StocHsWatchChange(_) => MessageType::STOC(stoc::MessageType::HsWatchChange),
            Message::StocFieldFinish(_) => MessageType::STOC(stoc::MessageType::FieldFinish),
        }
    }

    /// The bytes of this body.
    pub open spec fn spec_bytes(self) -> Seq<u8> {
        match self {
            Message::CtosUpdateDeck(x) => ctos::UpdateDeck::spec_serialize(x@),
            Message::CtosHandResult(x) => ctos::HandResult::spec_serialize(x@),
            Message::CtosTpResult(x) => ctos::TpResult::spec_serialize(x@),
            Message::CtosPlayerInfo(x) => ctos::PlayerInfo::spec_serialize(x@),
            Message::CtosCreateGame(x) => ctos::CreateGame::spec_serialize(x@),
            Message::CtosJoinGame(x) => ctos::JoinGame::spec_serialize(x@),
            Message::CtosLeaveGame(x) => ctos::LeaveGame::spec_serialize(x@),
            Message::CtosSurrender(x) => ctos::Surrender::spec_serialize(x@),
            Message::CtosTimeConfirm(x) => ctos::TimeConfirm::spec_serialize(x@),
            Message::CtosChat(x) => ctos::Chat::spec_serialize(x@),
            Message::CtosHsToDuelist(x) => ctos::HsToDuelist::spec_serialize(x@),
            Message::CtosHsToOBServer(x) => ctos::HsToOBServer::spec_serialize(x@),
            Message::CtosHsReady(x) => ctos::HsReady::spec_serialize(x@),
            Message::CtosHsNotReady(x) => ctos::HsNotReady::spec_serialize(x@),
            Message::CtosHsKick(x) => ctos::HsKick::spec_serialize(x@),
            Message::CtosHsStart(x) => ctos::HsStart::spec_serialize(x@),
            Message::CtosRequestField(x) => ctos::RequestField::spec_serialize(x@),
            Message::StocGameMessage(x) => gm::GameMessage::spec_serialize(x@),
            Message::StocErrorMessage(x) => stoc::ErrorMessage::spec_serialize(x@),
            Message::StocSelectHand(x) => stoc::SelectHand::spec_serialize(x@),
            Message::StocSelectTp(x) => stoc::SelectTp::spec_serialize(x@),
            Message::StocHandResult(x) => stoc::HandResult::spec_serialize(x@),
            Message::StocTpResult(x) => stoc::TpResult::spec_serialize(x@),
            Message::StocChangeSide(x) => stoc::ChangeSide::spec_serialize(x@),
            Message::StocWaitingSide(x) => stoc::WaitingSide::spec_serialize(x@),
            Message::StocDeckCount(x) => stoc::DeckCount::spec_serialize(x@),
            Message::StocCreateGame(x) => stoc::CreateGame::spec_serialize(x@),
            Message::StocJoinGame(x) => stoc::JoinGame::spec_serialize(x@),
            Message::StocTypeChange(x) => stoc::TypeChange::spec_serialize(x@),
            Message::StocLeaveGame(x) => stoc::LeaveGame::spec_serialize(x@),
            Message::StocDuelStart(x) => stoc::DuelStart::spec_serialize(x@),
            Message::StocDuelEnd(x) => stoc::DuelEnd::spec_serialize(x@),
            Message::StocReplay(x) => stoc::Replay::spec_serialize(x@),
            Message::StocTimeLimit(x) => stoc::TimeLimit::spec_serialize(x@),
            Message::StocChat(x) => stoc::Chat::spec_serialize(x@),
            Message::StocHsPlayerEnter(x) => stoc::HsPlayerEnter::spec_serialize(x@),
            Message::StocHsPlayerChange(x) => stoc::HsPlayerChange::spec_serialize(x@),
            Message::StocHsWatchChange(x) => stoc::HsWatchChange::spec_serialize(x@),
            Message::StocFieldFinish(x) => stoc::FieldFinish::spec_serialize(x@),
        }
    }

    pub fn message_type(&self) -> (r: MessageType)
        ensures
            r == self.spec_message_type(),
    {
        match self {
            Message::CtosUpdateDeck(_) => MessageType::CTOS(ctos::MessageType::UpdateDeck),
            Message::CtosHandResult(_) => MessageType::CTOS(ctos::MessageType::HandResult),
            Message::CtosTpResult(_) => MessageType::CTOS(ctos::MessageType::TpResult),
            Message::CtosPlayerInfo(_) => MessageType::CTOS(ctos::MessageType::PlayerInfo),
            Message::CtosCreateGame(_) => MessageType::CTOS(ctos::MessageType::CreateGame),
            Message::CtosJoinGame(_) => MessageType::CTOS(ctos::MessageType::JoinGame),
            Message::CtosLeaveGame(_) => MessageType::CTOS(ctos::MessageType::LeaveGame),
            Message::CtosSurrender(_) => MessageType::CTOS(ctos::MessageType::Surrender),
            Message::CtosTimeConfirm(_) => MessageType::CTOS(ctos::MessageType::TimeConfirm),
            Message::CtosChat(_) => MessageType::CTOS(ctos::MessageType::Chat),
            Message::CtosHsToDuelist(_) => MessageType::CTOS(ctos::MessageType::HsToDuelist),
            Message::CtosHsToOBServer(_) => MessageType::CTOS(ctos::MessageType::HsToOBServer),
            Message::CtosHsReady(_) => MessageType::CTOS(ctos::MessageType::HsReady),
            Message::CtosHsNotReady(_) => MessageType::CTOS(ctos::MessageType::HsNotReady),
            Message::CtosHsKick(_) => MessageType::CTOS(ctos::MessageType::HsKick),
            Message::CtosHsStart(_) => MessageType::CTOS(ctos::MessageType::HsStart),
            Message::CtosRequestField(_) => MessageType::CTOS(ctos::MessageType::RequestField),
            Message::StocGameMessage(_) => MessageType::STOC(stoc::MessageType::GameMessage),
            Message::StocErrorMessage(_) => MessageType::STOC(stoc::MessageType::ErrorMessage),
            Message::StocSelectHand(_) => MessageType::STOC(stoc::MessageType::SelectHand),
            Message::StocSelectTp(_) => MessageType::STOC(stoc::MessageType::SelectTp),
            Message::StocHandResult(_) => MessageType::STOC(stoc::MessageType::HandResult),
            Message::StocTpResult(_) => MessageType::STOC(stoc::MessageType::TpResult),
            Message::StocChangeSide(_) => MessageType::STOC(stoc::MessageType::ChangeSide),
            Message::StocWaitingSide(_) => MessageType::STOC(stoc::MessageType::WaitingSide),
            Message::StocDeckCount(_) => MessageType::STOC(stoc::MessageType::DeckCount),
            Message::StocCreateGame(_) => MessageType::STOC(stoc::MessageType::CreateGame),
            Message::StocJoinGame(_) => MessageType::STOC(stoc::MessageType::JoinGame),
            Message::StocTypeChange(_) => MessageType::STOC(stoc::MessageType::TypeChange),
            Message::StocLeaveGame(_) => MessageType::STOC(stoc::MessageType::LeaveGame),
            Message::StocDuelStart(_) => MessageType::STOC(stoc::MessageType::DuelStart),
            Message::StocDuelEnd(_) => MessageType::STOC(stoc::MessageType::DuelEnd),
            Message::StocReplay(_) => MessageType::STOC(stoc::MessageType::Replay),
            Message::StocTimeLimit(_) => MessageType::STOC(stoc::MessageType::TimeLimit),
            Message::StocChat(_) => MessageType::STOC(stoc::MessageType::Chat),
            Message::StocHsPlayerEnter(_) => MessageType::STOC(stoc::MessageType::HsPlayerEnter),
            Message::StocHsPlayerChange(_) => MessageType::STOC(stoc::MessageType::HsPlayerChange),
            Message::StocHsWatchChange(_) => MessageType::STOC(stoc::MessageType::HsWatchChange),
            Message::StocFieldFinish(_) => MessageType::STOC(stoc::MessageType::FieldFinish),
        }
    }

    pub fn serialize(&self) -> (r: Vec<u8>)
        ensures
            r@ == self.spec_bytes(),
    {
        match self {
            Message::CtosUpdateDeck(x) => x.serialize(),
            Message::CtosHandResult(x) => x.serialize(),
            Message::CtosTpResult(x) => x.serialize(),
            Message::CtosPlayerInfo(x) => x.serialize(),
            Message::CtosCreateGame(x) => x.serialize(),
            Message::CtosJoinGame(x) => x.serialize(),
            Message::CtosLeaveGame(x) => x.serialize(),
            Message::CtosSurrender(x) => x.serialize(),
            Message::CtosTimeConfirm(x) => x.serialize(),
            Message::CtosChat(x) => x.serialize(),
            Message::CtosHsToDuelist(x) => x.serialize(),
            Message::CtosHsToOBServer(x) => x.serialize(),
            Message::CtosHsReady(x) => x.serialize(),
            Message::CtosHsNotReady(x) => x.serialize(),
            Message::CtosHsKick(x) => x.serialize(),
            Message::CtosHsStart(x) => x.serialize(),
            Message::CtosRequestField(x) => x.serialize(),
            Message::StocGameMessage(x) => x.serialize(),
            Message::StocErrorMessage(x) => x.serialize(),
            Message::StocSelectHand(x) => x.serialize(),
            Message::StocSelectTp(x) => x.serialize(),
            Message::StocHandResult(x) => x.serialize(),
            Message::StocTpResult(x) => x.serialize(),
            Message::StocChangeSide(x) => x.serialize(),
            Message::StocWaitingSide(x) => x.serialize(),
            Message::StocDeckCount(x) => x.serialize(),
            Message::StocCreateGame(x) => x.serialize(),
            Message::StocJoinGame(x) => x.serialize(),
            Message::StocTypeChange(x) => x.serialize(),
            Message::StocLeaveGame(x) => x.serialize(),
            Message::StocDuelStart(x) => x.serialize(),
            Message::StocDuelEnd(x) => x.serialize(),
            Message::StocReplay(x) => x.serialize(),
            Message::StocTimeLimit(x) => x.serialize(),
            Message::StocChat(x) => x.serialize(),
            Message::StocHsPlayerEnter(x) => x.serialize(),
            Message::StocHsPlayerChange(x) => x.serialize(),
            Message::StocHsWatchChange(x) => x.serialize(),
            Message::StocFieldFinish(x) => x.serialize(),
        }
    }
}

/// Whether `r` is what reading a body of type `t` from the front of `data`
/// gives: the value that the layout of `t` finds there, or `None` where it
/// finds none or where `t` has no body that is looked into.
pub open spec fn decoded(t: MessageType, data: Seq<u8>, r: Option<Message>) -> bool {
    match t {
        MessageType::CTOS(ctos::MessageType::UpdateDeck) => match ctos::UpdateDeck::spec_take(data) {
            None => r is None,
            Some((v, _)) => r matches Some(Message::CtosUpdateDeck(x)) && x@ == v,
        },
        MessageType::CTOS(ctos::MessageType::HandResult) => match ctos::HandResult::spec_take(data) {
            None => r is None,
            Some((v, _)) => r matches Some(Message::CtosHandResult(x)) && x@ == v,
        },
        MessageType::CTOS(ctos::MessageType::TpResult) => match ctos::TpResult::spec_take(data) {
            None => r is None,
            Some((v, _)) => r matches Some(Message::CtosTpResult(x)) && x@ == v,
        },
        MessageType::CTOS(ctos::MessageType::PlayerInfo) => match ctos::PlayerInfo::spec_take(data) {
            None => r is None,
            Some((v, _)) => r matches Some(Message::CtosPlayerInfo(x)) && x@ == v,
        },
        MessageType::CTOS(ctos::MessageType::CreateGame) => match ctos::CreateGame::spec_take(data) {
            None => r is None,
            Some((v, _)) => r matches Some(Message::CtosCreateGame(x)) && x@ == v,
        },
        MessageType::CTOS(ctos::MessageType::JoinGame) => match ctos::JoinGame::spec_take(data) {
            None => r is None,
            Some((v, _)) => r matches Some(Message::CtosJoinGame(x)) && x@ == v,
        },
        MessageType::CTOS(ctos::MessageType::LeaveGame) => match ctos::LeaveGame::spec_take(data) {
            None => r is None,
            Some((v, _)) => r matches Some(Message::CtosLeaveGame(x)) && x@ == v,
        },
        MessageType::CTOS(ctos::MessageType::Surrender) => match ctos::Surrender::spec_take(data) {
            None => r is None,
            Some((v, _)) => r matches Some(Message::CtosSurrender(x)) && x@ == v,
        },
        MessageType::CTOS(ctos::MessageType::TimeConfirm) => match ctos::TimeConfirm::spec_take(data) {
            None => r is None,
            Some((v, _)) => r matches Some(Message::CtosTimeConfirm(x)) && x@ == v,
        },
        MessageType::CTOS(ctos::MessageType::Chat) => match ctos::Chat::spec_take(data) {
            None => r is None,
            Some((v, _)) => r matches Some(Message::CtosChat(x)) && x@ == v,
        },
        MessageType::CTOS(ctos::MessageType::HsToDuelist) => match ctos::HsToDuelist::spec_take(data) {
            None => r is None,
            Some((v, _)) => r matches Some(Message::CtosHsToDuelist(x)) && x@ == v,
        },
        MessageType::CTOS(ctos::MessageType::HsToOBServer) => match ctos::HsToOBServer::spec_take(data) {
            None => r is None,
            Some((v, _)) => r matches Some(Message::CtosHsToOBServer(x)) && x@ == v,
        },
        MessageType::CTOS(ctos::MessageType::HsReady) => match ctos::HsReady::spec_take(data) {
            None => r is None,
            Some((v, _)) => r matches Some(Message::CtosHsReady(x)) && x@ == v,
        },
        MessageType::CTOS(ctos::MessageType::HsNotReady) => match ctos::HsNotReady::spec_take(data) {
            None => r is None,
            Some((v, _)) => r matches Some(Message::CtosHsNotReady(x)) && x@ == v,
        },
        MessageType::CTOS(ctos::MessageType::HsKick) => match ctos::HsKick::spec_take(data) {
            None => r is None,
            Some((v, _)) => r matches Some(Message::CtosHsKick(x)) && x@ == v,
        },
        MessageType::CTOS(ctos::MessageType::HsStart) => match ctos::HsStart::spec_take(data) {
            None => r is None,
            Some((v, _)) => r matches Some(Message::CtosHsStart(x)) && x@ == v,
        },
        MessageType::CTOS(ctos::MessageType::RequestField) => match ctos::RequestField::spec_take(data) {
            None => r is None,
            Some((v, _)) => r matches Some(Message::CtosRequestField(x)) && x@ == v,
        },
        MessageType::STOC(stoc::MessageType::GameMessage) => match gm::GameMessage::spec_take(data) {
            None => r is None,
            Some((v, _)) => r matches Some(Message::StocGameMessage(x)) && x@ == v,
        },
        MessageType::STOC(stoc::MessageType::ErrorMessage) => match stoc::ErrorMessage::spec_take(data) {
            None => r is None,
            Some((v, _)) => r matches Some(Message::StocErrorMessage(x)) && x@ == v,
        },
        MessageType::STOC(stoc::MessageType::SelectHand) => match stoc::SelectHand::spec_take(data) {
            None => r is None,
            Some((v, _)) => r matches Some(Message::StocSelectHand(x)) && x@ == v,
        },
        MessageType::STOC(stoc::MessageType::SelectTp) => match stoc::SelectTp::spec_take(data) {
            None => r is None,
            Some((v, _)) => r matches Some(Message::StocSelectTp(x)) && x@ == v,
        },
        MessageType::STOC(stoc::MessageType::HandResult) => match stoc::HandResult::spec_take(data) {
            None => r is None,
            Some((v, _)) => r matches Some(Message::StocHandResult(x)) && x@ == v,
        },
        MessageType::STOC(stoc::MessageType::TpResult) => match stoc::TpResult::spec_take(data) {
            None => r is None,
            Some((v, _)) => r matches Some(Message::StocTpResult(x)) && x@ == v,
        },
        MessageType::STOC(stoc::MessageType::ChangeSide) => match stoc::ChangeSide::spec_take(data) {
            None => r is None,
            Some((v, _)) => r matches Some(Message::StocChangeSide(x)) && x@ == v,
        },
        MessageType::STOC(stoc::MessageType::WaitingSide) => match stoc::WaitingSide::spec_take(data) {
            None => r is None,
            Some((v, _)) => r matches Some(Message::StocWaitingSide(x)) && x@ == v,
        },
        MessageType::STOC(stoc::MessageType::DeckCount) => match stoc::DeckCount::spec_take(data) {
            None => r is None,
            Some((v, _)) => r matches Some(Message::StocDeckCount(x)) && x@ == v,
        },
        MessageType::STOC(stoc::MessageType::CreateGame) => match stoc::CreateGame::spec_take(data) {
            None => r is None,
            Some((v, _)) => r matches Some(Message::StocCreateGame(x)) && x@ == v,
        },
        MessageType::STOC(stoc::MessageType::JoinGame) => match stoc::JoinGame::spec_take(data) {
            None => r is None,
            Some((v, _)) => r matches Some(Message::StocJoinGame(x)) && x@ == v,
        },
        MessageType::STOC(stoc::MessageType::TypeChange) => match stoc::TypeChange::spec_take(data) {
            None => r is None,
            Some((v, _)) => r matches Some(Message::StocTypeChange(x)) && x@ == v,
        },
        MessageType::STOC(stoc::MessageType::LeaveGame) => match stoc::LeaveGame::spec_take(data) {
            None => r is None,
            Some((v, _)) => r matches Some(Message::StocLeaveGame(x)) && x@ == v,
        },
        MessageType::STOC(stoc::MessageType::DuelStart) => match stoc::DuelStart::spec_take(data) {
            None => r is None,
            Some((v, _)) => r matches Some(Message::StocDuelStart(x)) && x@ == v,
        },
        MessageType::STOC(stoc::MessageType::DuelEnd) => match stoc::DuelEnd::spec_take(data) {
            None => r is None,
            Some((v, _)) => r matches Some(Message::StocDuelEnd(x)) && x@ == v,
        },
        MessageType::STOC(stoc::MessageType::Replay) => match stoc::Replay::spec_take(data) {
            None => r is None,
            Some((v, _)) => r matches Some(Message::StocReplay(x)) && x@ == v,
        },
        MessageType::STOC(stoc::MessageType::TimeLimit) => match stoc::TimeLimit::spec_take(data) {
            None => r is None,
            Some((v, _)) => r matches Some(Message::StocTimeLimit(x)) && x@ == v,
        },
        MessageType::STOC(stoc::MessageType::Chat) => match stoc::Chat::spec_take(data) {
            None => r is None,
            Some((v, _)) => r matches Some(Message::StocChat(x)) && x@ == v,
        },
        MessageType::STOC(stoc::MessageType::HsPlayerEnter) => match stoc::HsPlayerEnter::spec_take(data) {
            None => r is None,
            Some((v, _)) => r matches Some(Message::StocHsPlayerEnter(x)) && x@ == v,
        },
        MessageType::STOC(stoc::MessageType::HsPlayerChange) => match stoc::HsPlayerChange::spec_take(data) {
            None => r is None,
            Some((v, _)) => r matches Some(Message::StocHsPlayerChange(x)) && x@ == v,
        },
        MessageType::STOC(stoc::MessageType::HsWatchChange) => match stoc::HsWatchChange::spec_take(data) {
            None => r is None,
            Some((v, _)) => r matches Some(Message::StocHsWatchChange(x)) && x@ == v,
        },
        MessageType::STOC(stoc::MessageType::FieldFinish) => match stoc::FieldFinish::spec_take(data) {
            None => r is None,
            Some((v, _)) => r matches Some(Message::StocFieldFinish(x)) && x@ == v,
        },
        _ => r is None,
    }
}

impl Message {
    /// Whether the layout of this body's type can carry it.
    pub open spec fn spec_wf(self) -> bool {
        match self {
            Message::CtosUpdateDeck(x) => ctos::UpdateDeck::spec_wf(x@),
            Message::CtosHandResult(x) => ctos::HandResult::spec_wf(x@),
            Message::CtosTpResult(x) => ctos::TpResult::spec_wf(x@),
            Message::CtosPlayerInfo(x) => ctos::PlayerInfo::spec_wf(x@),
            Message::CtosCreateGame(x) => ctos::CreateGame::spec_wf(x@),
            Message::CtosJoinGame(x) => ctos::JoinGame::spec_wf(x@),
            Message::CtosLeaveGame(x) => ctos::LeaveGame::spec_wf(x@),
            Message::CtosSurrender(x) => ctos::Surrender::spec_wf(x@),
            Message::CtosTimeConfirm(x) => ctos::TimeConfirm::spec_wf(x@),
            Message::CtosChat(x) => ctos::Chat::spec_wf(x@),
            Message::CtosHsToDuelist(x) => ctos::HsToDuelist::spec_wf(x@),
            Message::CtosHsToOBServer(x) => ctos::HsToOBServer::spec_wf(x@),
            Message::CtosHsReady(x) => ctos::HsReady::spec_wf(x@),
            Message::CtosHsNotReady(x) => ctos::HsNotReady::spec_wf(x@),
            Message::CtosHsKick(x) => ctos::HsKick::spec_wf(x@),
            Message::CtosHsStart(x) => ctos::HsStart::spec_wf(x@),
            Message::CtosRequestField(x) => ctos::RequestField::spec_wf(x@),
            Message::StocGameMessage(x) => gm::GameMessage::spec_wf(x@),
            Message::StocErrorMessage(x) => stoc::ErrorMessage::spec_wf(x@),
            Message::StocSelectHand(x) => stoc::SelectHand::spec_wf(x@),
            Message::StocSelectTp(x) => stoc::SelectTp::spec_wf(x@),
            Message::StocHandResult(x) => stoc::HandResult::spec_wf(x@),
            Message::StocTpResult(x) => stoc::TpResult::spec_wf(x@),
            Message::StocChangeSide(x) => stoc::ChangeSide::spec_wf(x@),
            Message::StocWaitingSide(x) => stoc::WaitingSide::spec_wf(x@),
            Message::StocDeckCount(x) => stoc::DeckCount::spec_wf(x@),
            Message::StocCreateGame(x) => stoc::CreateGame::spec_wf(x@),
            Message::StocJoinGame(x) => stoc::JoinGame::spec_wf(x@),
            Message::StocTypeChange(x) => stoc::TypeChange::spec_wf(x@),
            Message::StocLeaveGame(x) => stoc::LeaveGame::spec_wf(x@),
            Message::StocDuelStart(x) => stoc::DuelStart::spec_wf(x@),
            Message::StocDuelEnd(x) => stoc::DuelEnd::spec_wf(x@),
            Message::StocReplay(x) => stoc::Replay::spec_wf(x@),
            Message::StocTimeLimit(x) => stoc::TimeLimit::spec_wf(x@),
            Message::StocChat(x) => stoc::Chat::spec_wf(x@),
            Message::StocHsPlayerEnter(x) => stoc::HsPlayerEnter::spec_wf(x@),
            Message::StocHsPlayerChange(x) => stoc::HsPlayerChange::spec_wf(x@),
            Message::StocHsWatchChange(x) => stoc::HsWatchChange::spec_wf(x@),
            Message::StocFieldFinish(x) => stoc::FieldFinish::spec_wf(x@),
        }
    }

    /// Whether the layout of this body's type has a fixed size.
    pub open spec fn spec_fixed(self) -> bool {
        match self {
            Message::CtosUpdateDeck(_) => ctos::UpdateDeck::spec_fixed(),
            Message::CtosHandResult(_) => ctos::HandResult::spec_fixed(),
            Message::CtosTpResult(_) => ctos::TpResult::spec_fixed(),
            Message::CtosPlayerInfo(_) => ctos::PlayerInfo::spec_fixed(),
            Message::CtosCreateGame(_) => ctos::CreateGame::spec_fixed(),
            Message::CtosJoinGame(_) => ctos::JoinGame::spec_fixed(),
            Message::CtosLeaveGame(_) => ctos::LeaveGame::spec_fixed(),
            Message::CtosSurrender(_) => ctos::Surrender::spec_fixed(),
            Message::CtosTimeConfirm(_) => ctos::TimeConfirm::spec_fixed(),
            Message::CtosChat(_) => ctos::Chat::spec_fixed(),
            Message::CtosHsToDuelist(_) => ctos::HsToDuelist::spec_fixed(),
            Message::CtosHsToOBServer(_) => ctos::HsToOBServer::spec_fixed(),
            Message::CtosHsReady(_) => ctos::HsReady::spec_fixed(),
            Message::CtosHsNotReady(_) => ctos::HsNotReady::spec_fixed(),
            Message::CtosHsKick(_) => ctos::HsKick::spec_fixed(),
            Message::CtosHsStart(_) => ctos::HsStart::spec_fixed(),
            Message::CtosRequestField(_) => ctos::RequestField::spec_fixed(),
            Message::StocGameMessage(_) => gm::GameMessage::spec_fixed(),
            Message::StocErrorMessage(_) => stoc::ErrorMessage::spec_fixed(),
            Message::StocSelectHand(_) => stoc::SelectHand::spec_fixed(),
            Message::StocSelectTp(_) => stoc::SelectTp::spec_fixed(),
            Message::StocHandResult(_) => stoc::HandResult::spec_fixed(),
            Message::StocTpResult(_) => stoc::TpResult::spec_fixed(),
            Message::StocChangeSide(_) => stoc::ChangeSide::spec_fixed(),
            Message::StocWaitingSide(_) => stoc::WaitingSide::spec_fixed(),
            Message::StocDeckCount(_) => stoc::DeckCount::spec_fixed(),
            Message::StocCreateGame(_) => stoc::CreateGame::spec_fixed(),
            Message::StocJoinGame(_) => stoc::JoinGame::spec_fixed(),
            Message::StocTypeChange(_) => stoc::TypeChange::spec_fixed(),
            Message::StocLeaveGame(_) => stoc::LeaveGame::spec_fixed(),
            Message::StocDuelStart(_) => stoc::DuelStart::spec_fixed(),
            Message::StocDuelEnd(_) => stoc::DuelEnd::spec_fixed(),
            Message::StocReplay(_) => stoc::Replay::spec_fixed(),
            Message::StocTimeLimit(_) => stoc::TimeLimit::spec_fixed(),
            Message::StocChat(_) => stoc::Chat::spec_fixed(),
            Message::StocHsPlayerEnter(_) => stoc::HsPlayerEnter::spec_fixed(),
            Message::StocHsPlayerChange(_) => stoc::HsPlayerChange::spec_fixed(),
            Message::StocHsWatchChange(_) => stoc::HsWatchChange::spec_fixed(),
            Message::StocFieldFinish(_) => stoc::FieldFinish::spec_fixed(),
        }
    }
}

/// Reading a body of a message's own type from the bytes of that body
/// gives the body back; where the layout has a fixed size, whatever follows
/// it is left alone.
pub proof fn lemma_message_roundtrip(m: Message, rest: Seq<u8>)
    requires
        m.spec_wf(),
        m.spec_fixed() || rest.len() == 0,
    ensures
        decoded(m.spec_message_type(), m.spec_bytes() + rest, Some(m)),
{
    match m {
        Message::CtosUpdateDeck(x) => { ctos::UpdateDeck::lemma_roundtrip(x@, rest); },
        Message::CtosHandResult(x) => { ctos::HandResult::lemma_roundtrip(x@, rest); },
        Message::CtosTpResult(x) => { ctos::TpResult::lemma_roundtrip(x@, rest); },
        Message::CtosPlayerInfo(x) => { ctos::PlayerInfo::lemma_roundtrip(x@, rest); },
        Message::CtosCreateGame(x) => { ctos::CreateGame::lemma_roundtrip(x@, rest); },
        Message::CtosJoinGame(x) => { ctos::JoinGame::lemma_roundtrip(x@, rest); },
        Message::CtosLeaveGame(x) => { ctos::LeaveGame::lemma_roundtrip(x@, rest); },
        Message::CtosSurrender(x) => { ctos::Surrender::lemma_roundtrip(x@, rest); },
        Message::CtosTimeConfirm(x) => { ctos::TimeConfirm::lemma_roundtrip(x@, rest); },
        Message::CtosChat(x) => { ctos::Chat::lemma_roundtrip(x@, rest); },
        Message::CtosHsToDuelist(x) => { ctos::HsToDuelist::lemma_roundtrip(x@, rest); },
        Message::CtosHsToOBServer(x) => { ctos::HsToOBServer::lemma_roundtrip(x@, rest); },
        Message::CtosHsReady(x) => { ctos::HsReady::lemma_roundtrip(x@, rest); },
        Message::CtosHsNotReady(x) => { ctos::HsNotReady::lemma_roundtrip(x@, rest); },
        Message::CtosHsKick(x) => { ctos::HsKick::lemma_roundtrip(x@, rest); },
        Message::CtosHsStart(x) => { ctos::HsStart::lemma_roundtrip(x@, rest); },
        Message::CtosRequestField(x) => { ctos::RequestField::lemma_roundtrip(x@, rest); },
        Message::StocGameMessage(x) => { gm::GameMessage::lemma_roundtrip(x@, rest); },
        Message::StocErrorMessage(x) => { stoc::ErrorMessage::lemma_roundtrip(x@, rest); },
        Message::StocSelectHand(x) => { stoc::SelectHand::lemma_roundtrip(x@, rest); },
        Message::StocSelectTp(x) => { stoc::SelectTp::lemma_roundtrip(x@, rest); },
        Message::StocHandResult(x) => { stoc::HandResult::lemma_roundtrip(x@, rest); },
        Message::StocTpResult(x) => { stoc::TpResult::lemma_roundtrip(x@, rest); },
        Message::StocChangeSide(x) => { stoc::ChangeSide::lemma_roundtrip(x@, rest); },
        Message::StocWaitingSide(x) => { stoc::WaitingSide::lemma_roundtrip(x@, rest); },
        Message::StocDeckCount(x) => { stoc::DeckCount::lemma_roundtrip(x@, rest); },
        Message::StocCreateGame(x) => { stoc::CreateGame::lemma_roundtrip(x@, rest); },
        Message::StocJoinGame(x) => { stoc::JoinGame::lemma_roundtrip(x@, rest); },
        Message::StocTypeChange(x) => { stoc::TypeChange::lemma_roundtrip(x@, rest); },
        Message::StocLeaveGame(x) => { stoc::LeaveGame::lemma_roundtrip(x@, rest); },
        Message::StocDuelStart(x) => { stoc::DuelStart::lemma_roundtrip(x@, rest); },
        Message::StocDuelEnd(x) => { stoc::DuelEnd::lemma_roundtrip(x@, rest); },
        Message::StocReplay(x) => { stoc::Replay::lemma_roundtrip(x@, rest); },
        Message::StocTimeLimit(x) => { stoc::TimeLimit::lemma_roundtrip(x@, rest); },
        Message::StocChat(x) => { stoc::Chat::lemma_roundtrip(x@, rest); },
        Message::StocHsPlayerEnter(x) => { stoc::HsPlayerEnter::lemma_roundtrip(x@, rest); },
        Message::StocHsPlayerChange(x) => { stoc::HsPlayerChange::lemma_roundtrip(x@, rest); },
        Message::StocHsWatchChange(x) => { stoc::HsWatchChange::lemma_roundtrip(x@, rest); },
        Message::StocFieldFinish(x) => { stoc::FieldFinish::lemma_roundtrip(x@, rest); },
    }
}

/// Read the body of a message of type `t` from `data`; bytes after the body
/// are ignored. Only types between client and server have bodies.
pub fn deserialize_struct_by_type(t: MessageType, data: &[u8]) -> (r: Option<Message>)
    requires
        t is CTOS || t is STOC,
    ensures
        decoded(t, data@, r),
{
    match t {
        MessageType::CTOS(ctos::MessageType::UpdateDeck) => match ctos::UpdateDeck::deserialize(data) {
            Some(x) => Some(Message::CtosUpdateDeck(x)),
            None => None,
        },
        MessageType::CTOS(ctos::MessageType::HandResult) => match ctos::HandResult::deserialize(data) {
            Some(x) => Some(Message::CtosHandResult(x)),
            None => None,
        },
        MessageType::CTOS(ctos::MessageType::TpResult) => match ctos::TpResult::deserialize(data) {
            Some(x) => Some(Message::CtosTpResult(x)),
            None => None,
        },
        MessageType::CTOS(ctos::MessageType::PlayerInfo) => match ctos::PlayerInfo::deserialize(data) {
            Some(x) => Some(Message::CtosPlayerInfo(x)),
            None => None,
        },
        MessageType::CTOS(ctos::MessageType::CreateGame) => match ctos::CreateGame::deserialize(data) {
            Some(x) => Some(Message::CtosCreateGame(x)),
            None => None,
        },
        MessageType::CTOS(ctos::MessageType::JoinGame) => match ctos::JoinGame::deserialize(data) {
            Some(x) => Some(Message::CtosJoinGame(x)),
            None => None,
        },
        MessageType::CTOS(ctos::MessageType::LeaveGame) => match ctos::LeaveGame::deserialize(data) {
            Some(x) => Some(Message::CtosLeaveGame(x)),
            None => None,
        },
        MessageType::CTOS(ctos::MessageType::Surrender) => match ctos::Surrender::deserialize(data) {
            Some(x) => Some(Message::CtosSurrender(x)),
            None => None,
        },
        MessageType::CTOS(ctos::MessageType::TimeConfirm) => match ctos::TimeConfirm::deserialize(data) {
            Some(x) => Some(Message::CtosTimeConfirm(x)),
            None => None,
        },
        MessageType::CTOS(ctos::MessageType::Chat) => match ctos::Chat::deserialize(data) {
            Some(x) => Some(Message::CtosChat(x)),
            None => None,
        },
        MessageType::CTOS(ctos::MessageType::HsToDuelist) => match ctos::HsToDuelist::deserialize(data) {
            Some(x) => Some(Message::CtosHsToDuelist(x)),
            None => None,
        },
        MessageType::CTOS(ctos::MessageType::HsToOBServer) => match ctos::HsToOBServer::deserialize(data) {
            Some(x) => Some(Message::CtosHsToOBServer(x)),
            None => None,
        },
        MessageType::CTOS(ctos::MessageType::HsReady) => match ctos::HsReady::deserialize(data) {
            Some(x) => Some(Message::CtosHsReady(x)),
            None => None,
        },
        MessageType::CTOS(ctos::MessageType::HsNotReady) => match ctos::HsNotReady::deserialize(data) {
            Some(x) => Some(Message::CtosHsNotReady(x)),
            None => None,
        },
        MessageType::CTOS(ctos::MessageType::HsKick) => match ctos::HsKick::deserialize(data) {
            Some(x) => Some(Message::CtosHsKick(x)),
            None => None,
        },
        MessageType::CTOS(ctos::MessageType::HsStart) => match ctos::HsStart::deserialize(data) {
            Some(x) => Some(Message::CtosHsStart(x)),
            None => None,
        },
        MessageType::CTOS(ctos::MessageType::RequestField) => match ctos::RequestField::deserialize(data) {
            Some(x) => Some(Message::CtosRequestField(x)),
            None => None,
        },
        MessageType::STOC(stoc::MessageType::GameMessage) => match gm::GameMessage::deserialize(data) {
            Some(x) => Some(Message::StocGameMessage(x)),
            None => None,
        },
        MessageType::STOC(stoc::MessageType::ErrorMessage) => match stoc::ErrorMessage::deserialize(data) {
            Some(x) => Some(Message::StocErrorMessage(x)),
            None => None,
        },
        MessageType::STOC(stoc::MessageType::SelectHand) => match stoc::SelectHand::deserialize(data) {
            Some(x) => Some(Message::StocSelectHand(x)),
            None => None,
        },
        MessageType::STOC(stoc::MessageType::SelectTp) => match stoc::SelectTp::deserialize(data) {
            Some(x) => Some(Message::StocSelectTp(x)),
            None => None,
        },
        MessageType::STOC(stoc::MessageType::HandResult) => match stoc::HandResult::deserialize(data) {
            Some(x) => Some(Message::StocHandResult(x)),
            None => None,
        },
        MessageType::STOC(stoc::MessageType::TpResult) => match stoc::TpResult::deserialize(data) {
            Some(x) => Some(Message::StocTpResult(x)),
            None => None,
        },
        MessageType::STOC(stoc::MessageType::ChangeSide) => match stoc::ChangeSide::deserialize(data) {
            Some(x) => Some(Message::StocChangeSide(x)),
            None => None,
        },
        MessageType::STOC(stoc::MessageType::WaitingSide) => match stoc::WaitingSide::deserialize(data) {
            Some(x) => Some(Message::StocWaitingSide(x)),
            None => None,
        },
        MessageType::STOC(stoc::MessageType::DeckCount) => match stoc::DeckCount::deserialize(data) {
            Some(x) => Some(Message::StocDeckCount(x)),
            None => None,
        },
        MessageType::STOC(stoc::MessageType::CreateGame) => match stoc::CreateGame::deserialize(data) {
            Some(x) => Some(Message::StocCreateGame(x)),
            None => None,
        },
        MessageType::STOC(stoc::MessageType::JoinGame) => match stoc::JoinGame::deserialize(data) {
            Some(x) => Some(Message::StocJoinGame(x)),
            None => None,
        },
        MessageType::STOC(stoc::MessageType::TypeChange) => match stoc::TypeChange::deserialize(data) {
            Some(x) => Some(Message::StocTypeChange(x)),
            None => None,
        },
        MessageType::STOC(stoc::MessageType::LeaveGame) => match stoc::LeaveGame::deserialize(data) {
            Some(x) => Some(Message::StocLeaveGame(x)),
            None => None,
        },
        MessageType::STOC(stoc::MessageType::DuelStart) => match stoc::DuelStart::deserialize(data) {
            Some(x) => Some(Message::StocDuelStart(x)),
            None => None,
        },
        MessageType::STOC(stoc::MessageType::DuelEnd) => match stoc::DuelEnd::deserialize(data) {
            Some(x) => Some(Message::StocDuelEnd(x)),
            None => None,
        },
        MessageType::STOC(stoc::MessageType::Replay) => match stoc::Replay::deserialize(data) {
            Some(x) => Some(Message::StocReplay(x)),
            None => None,
        },
        MessageType::STOC(stoc::MessageType::TimeLimit) => match stoc::TimeLimit::deserialize(data) {
            Some(x) => Some(Message::StocTimeLimit(x)),
            None => None,
        },
        MessageType::STOC(stoc::MessageType::Chat) => match stoc::Chat::deserialize(data) {
            Some(x) => Some(Message::StocChat(x)),
            None => None,
        },
        MessageType::STOC(stoc::MessageType::HsPlayerEnter) => match stoc::HsPlayerEnter::deserialize(data) {
            Some(x) => Some(Message::StocHsPlayerEnter(x)),
            None => None,
        },
        MessageType::STOC(stoc::MessageType::HsPlayerChange) => match stoc::HsPlayerChange::deserialize(data) {
            Some(x) => Some(Message::StocHsPlayerChange(x)),
            None => None,
        },
        MessageType::STOC(stoc::MessageType::HsWatchChange) => match stoc::HsWatchChange::deserialize(data) {
            Some(x) => Some(Message::StocHsWatchChange(x)),
            None => None,
        },
        MessageType::STOC(stoc::MessageType::FieldFinish) => match stoc::FieldFinish::deserialize(data) {
            Some(x) => Some(Message::StocFieldFinish(x)),
            None => None,
        },
        _ => None,
    }
}

} // verus!
