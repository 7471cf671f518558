//! Message types and structures sent from server to client.
use vstd::prelude::*;

use crate::ygopro::bytes::{
    lemma_u16s_greedy_roundtrip, le_u16, le_u16s, le_u32, lemma_bytes_roundtrip,
    lemma_take_bytes_roundtrip, lemma_u16_roundtrip, lemma_u16s_roundtrip, lemma_u32_roundtrip,
    lemma_u8_roundtrip, push_bytes, push_u16, push_u16_array20, push_u16s, push_u32, push_u8,
    push_u8_array3, read_bytes_greedy, read_u16, read_u16_array20, read_u16s_greedy, read_u32,
    read_u8, read_u8_array3, take_bytes, take_bytes_greedy, take_u16, take_u16s, take_u16s_greedy,
    take_u32, take_u8,
};
use crate::ygopro::constants::Netplayer;
use crate::ygopro::message::{HostInfo, HostInfoView};
use crate::ygopro::message::{MappedStruct, Struct};

verus! {

/// Message types sent from server to client.
#[derive(Copy, Clone, Debug, PartialEq, Eq, Structural, Hash)]
pub enum MessageType {
    GameMessage,
    ErrorMessage,
    SelectHand,
    SelectTp,
    HandResult,
    TpResult,
    ChangeSide,
    WaitingSide,
    DeckCount,
    CreateGame,
    JoinGame,
    TypeChange,
    LeaveGame,
    DuelStart,
    DuelEnd,
    Replay,
    TimeLimit,
    Chat,
    HsPlayerEnter,
    HsPlayerChange,
    HsWatchChange,
    FieldFinish,
}

impl MessageType {
    /// The number that stands for this value on the wire.
    pub open spec fn spec_value(self) -> u8 {
        match self {
            MessageType::GameMessage => 1,
            MessageType::ErrorMessage => 2,
            MessageType::SelectHand => 3,
            MessageType::SelectTp => 4,
            MessageType::HandResult => 5,
            MessageType::TpResult => 6,
            MessageType::ChangeSide => 7,
            MessageType::WaitingSide => 8,
            MessageType::DeckCount => 9,
            MessageType::CreateGame => 17,
            MessageType::JoinGame => 18,
            MessageType::TypeChange => 19,
            MessageType::LeaveGame => 20,
            MessageType::DuelStart => 21,
            MessageType::DuelEnd => 22,
            MessageType::Replay => 23,
            MessageType::TimeLimit => 24,
            MessageType::Chat => 25,
            MessageType::HsPlayerEnter => 32,
            MessageType::HsPlayerChange => 33,
            MessageType::HsWatchChange => 34,
            MessageType::FieldFinish => 48,
        }
    }

    /// The value that a wire number stands for, if any.
    #[verifier::opaque]
    pub open spec fn spec_try_from(v: u8) -> Option<MessageType> {
        if v == 1 { Some(MessageType::GameMessage) } else if v == 2 { Some(MessageType::ErrorMessage) } else
        if v == 3 { Some(MessageType::SelectHand) } else if v == 4 { Some(MessageType::SelectTp) } else
        if v == 5 { Some(MessageType::HandResult) } else if v == 6 { Some(MessageType::TpResult) } else
        if v == 7 { Some(MessageType::ChangeSide) } else if v == 8 { Some(MessageType::WaitingSide) } else
        if v == 9 { Some(MessageType::DeckCount) } else if v == 17 { Some(MessageType::CreateGame) } else
        if v == 18 { Some(MessageType::JoinGame) } else if v == 19 { Some(MessageType::TypeChange) } else
        if v == 20 { Some(MessageType::LeaveGame) } else if v == 21 { Some(MessageType::DuelStart) } else
        if v == 22 { Some(MessageType::DuelEnd) } else if v == 23 { Some(MessageType::Replay) } else
        if v == 24 { Some(MessageType::TimeLimit) } else if v == 25 { Some(MessageType::Chat) } else
        if v == 32 { Some(MessageType::HsPlayerEnter) } else if v == 33 { Some(MessageType::HsPlayerChange) } else
        if v == 34 { Some(MessageType::HsWatchChange) } else if v == 48 { Some(MessageType::FieldFinish) } else
        { None }
    }

    pub fn into_u8(self) -> (r: u8)
        ensures
            r == self.spec_value(),
    {
        match self {
            MessageType::GameMessage => 1,
            MessageType::ErrorMessage => 2,
            MessageType::SelectHand => 3,
            MessageType::SelectTp => 4,
            MessageType::HandResult => 5,
            MessageType::TpResult => 6,
            MessageType::ChangeSide => 7,
            MessageType::WaitingSide => 8,
            MessageType::DeckCount => 9,
            MessageType::CreateGame => 17,
            MessageType::JoinGame => 18,
            MessageType::TypeChange => 19,
            MessageType::LeaveGame => 20,
            MessageType::DuelStart => 21,
            MessageType::DuelEnd => 22,
            MessageType::Replay => 23,
            MessageType::TimeLimit => 24,
            MessageType::Chat => 25,
            MessageType::HsPlayerEnter => 32,
            MessageType::HsPlayerChange => 33,
            MessageType::HsWatchChange => 34,
            MessageType::FieldFinish => 48,
        }
    }

    pub fn try_from_u8(v: u8) -> (r: Option<MessageType>)
        ensures
            r == Self::spec_try_from(v),
    {
        proof { reveal(MessageType::spec_try_from); }
        if v == 1 { return Some(MessageType::GameMessage); }
        if v == 2 { return Some(MessageType::ErrorMessage); }
        if v == 3 { return Some(MessageType::SelectHand); }
        if v == 4 { return Some(MessageType::SelectTp); }
        if v == 5 { return Some(MessageType::HandResult); }
        if v == 6 { return Some(MessageType::TpResult); }
        if v == 7 { return Some(MessageType::ChangeSide); }
        if v == 8 { return Some(MessageType::WaitingSide); }
        if v == 9 { return Some(MessageType::DeckCount); }
        if v == 17 { return Some(MessageType::CreateGame); }
        if v == 18 { return Some(MessageType::JoinGame); }
        if v == 19 { return Some(MessageType::TypeChange); }
        if v == 20 { return Some(MessageType::LeaveGame); }
        if v == 21 { return Some(MessageType::DuelStart); }
        if v == 22 { return Some(MessageType::DuelEnd); }
        if v == 23 { return Some(MessageType::Replay); }
        if v == 24 { return Some(MessageType::TimeLimit); }
        if v == 25 { return Some(MessageType::Chat); }
        if v == 32 { return Some(MessageType::HsPlayerEnter); }
        if v == 33 { return Some(MessageType::HsPlayerChange); }
        if v == 34 { return Some(MessageType::HsWatchChange); }
        if v == 48 { return Some(MessageType::FieldFinish); }
        None
    }

    /// Every value survives the trip through its number, and every number
    /// that stands for a value is that value's number.
    pub proof fn lemma_value_roundtrip(self, v: u8)
        ensures
            Self::spec_try_from(self.spec_value()) == Some(self),
            Self::spec_try_from(v) matches Some(x) ==> x.spec_value() == v,
    {
        reveal(MessageType::spec_try_from);
    }
}

/// The server refuses a request.
#[derive(Clone, Debug)]
pub struct ErrorMessage {
    pub msg: crate::ygopro::constants::ErrorMessage,
    pub align: [u8; 3],
    pub code: u32,
}

/// The model of a [`ErrorMessage`]: arrays and vectors as sequences.
pub struct ErrorMessageView {
    pub msg: crate::ygopro::constants::ErrorMessage,
    pub align: Seq<u8>,
    pub code: u32,
}

impl View for ErrorMessage {
    type V = ErrorMessageView;

    open spec fn view(&self) -> ErrorMessageView {
        ErrorMessageView { msg: self.msg, align: self.align@, code: self.code }
    }
}

impl Struct for ErrorMessage {
    open spec fn spec_wf(v: ErrorMessageView) -> bool {
        v.align.len() == 3
    }

    open spec fn spec_fixed() -> bool {
        true
    }

    open spec fn spec_serialize(v: ErrorMessageView) -> Seq<u8> {
        seq![v.msg.spec_value()] + (v.align + (le_u32(v.code)))
    }

    open spec fn spec_take(s: Seq<u8>) -> Option<(ErrorMessageView, Seq<u8>)> {
        match take_u8(s) { None => None, Some((msg_code, s)) => match crate::ygopro::constants::ErrorMessage::spec_try_from(msg_code) { None => None, Some(msg) => 
        match take_bytes(s, 3) { None => None, Some((align, s)) => 
        match take_u32(s) { None => None, Some((code, s)) => 
        Some((ErrorMessageView { msg, align, code }, s))
        }} } }
    }

    fn serialize(&self) -> (r: Vec<u8>) {
        let mut out: Vec<u8> = Vec::new();
        push_u8(&mut out, self.msg.into_u8());
        push_u8_array3(&mut out, &self.align);
        push_u32(&mut out, self.code);
        assert(out@ =~= Self::spec_serialize(self@));
        out
    }

    fn take(data: &[u8], pos: usize) -> (r: Option<(ErrorMessage, usize)>) {
        let p = pos;
        let (msg_code, p) = match read_u8(data, p) { None => return None, Some(x) => x };
        let msg = match crate::ygopro::constants::ErrorMessage::try_from_u8(msg_code) { None => return None, Some(x) => x };
        let (align, p) = match read_u8_array3(data, p) { None => return None, Some(x) => x };
        let (code, p) = match read_u32(data, p) { None => return None, Some(x) => x };
        Some((ErrorMessage { msg, align, code }, p))
    }

    proof fn lemma_roundtrip(v: ErrorMessageView, rest: Seq<u8>) {
        let t2 = le_u32(v.code);
        let t1 = v.align + t2;
        let t0 = seq![v.msg.spec_value()] + t1;
        assert(Self::spec_serialize(v) == t0);
        assert(t0 + rest =~= seq![v.msg.spec_value()] + (t1 + rest));
        lemma_u8_roundtrip(v.msg.spec_value(), t1 + rest);
        v.msg.lemma_value_roundtrip(0);
        assert(t1 + rest =~= v.align + (t2 + rest));
        lemma_take_bytes_roundtrip(v.align, t2 + rest);
        lemma_u32_roundtrip(v.code, rest);
    }
}

/// The body of `ErrorMessage` is laid out as the protocol has it, field by
/// field: msg, align, code.
pub proof fn law_error_message_layout(v: ErrorMessageView)
    requires
        ErrorMessage::spec_wf(v),
    ensures
        ErrorMessage::spec_serialize(v).len() == 8,
        ErrorMessage::spec_serialize(v).subrange(0, 1) == seq![v.msg.spec_value()],
        ErrorMessage::spec_serialize(v).subrange(1, 4) == v.align,
        ErrorMessage::spec_serialize(v).subrange(4, 8) == le_u32(v.code),
{
    let b = ErrorMessage::spec_serialize(v);
    assert(b.subrange(0, 1) =~= seq![v.msg.spec_value()]);
    assert(b.subrange(1, 4) =~= v.align);
    assert(b.subrange(4, 8) =~= le_u32(v.code));
}

impl MappedStruct for ErrorMessage {
    open spec fn spec_message() -> crate::ygopro::message::MessageType {
        crate::ygopro::message::MessageType::STOC(self::MessageType::ErrorMessage)
    }

    fn message() -> (r: crate::ygopro::message::MessageType) {
        crate::ygopro::message::MessageType::STOC(self::MessageType::ErrorMessage)
    }
}

/// Ask for a rock-paper-scissors hand.
#[derive(Clone, Debug)]
pub struct SelectHand;

impl View for SelectHand {
    type V = SelectHand;

    open spec fn view(&self) -> SelectHand {
        *self
    }
}

impl Struct for SelectHand {
    open spec fn spec_wf(v: SelectHand) -> bool {
        true
    }

    open spec fn spec_fixed() -> bool {
        true
    }

    open spec fn spec_serialize(v: SelectHand) -> Seq<u8> {
        Seq::<u8>::empty()
    }

    open spec fn spec_take(s: Seq<u8>) -> Option<(SelectHand, Seq<u8>)> {
        Some((SelectHand, s))
    }

    fn serialize(&self) -> (r: Vec<u8>) {
        let mut out: Vec<u8> = Vec::new();
        assert(out@ =~= Self::spec_serialize(self@));
        out
    }

    fn take(data: &[u8], pos: usize) -> (r: Option<(SelectHand, usize)>) {
        let p = pos;
        Some((SelectHand, p))
    }

    proof fn lemma_roundtrip(v: SelectHand, rest: Seq<u8>) {
    }
}

impl MappedStruct for SelectHand {
    open spec fn spec_message() -> crate::ygopro::message::MessageType {
        crate::ygopro::message::MessageType::STOC(self::MessageType::SelectHand)
    }

    fn message() -> (r: crate::ygopro::message::MessageType) {
        crate::ygopro::message::MessageType::STOC(self::MessageType::SelectHand)
    }
}

/// Ask whether to go first.
#[derive(Clone, Debug)]
pub struct SelectTp;

impl View for SelectTp {
    type V = SelectTp;

    open spec fn view(&self) -> SelectTp {
        *self
    }
}

impl Struct for SelectTp {
    open spec fn spec_wf(v: SelectTp) -> bool {
        true
    }

    open spec fn spec_fixed() -> bool {
        true
    }

    open spec fn spec_serialize(v: SelectTp) -> Seq<u8> {
        Seq::<u8>::empty()
    }

    open spec fn spec_take(s: Seq<u8>) -> Option<(SelectTp, Seq<u8>)> {
        Some((SelectTp, s))
    }

    fn serialize(&self) -> (r: Vec<u8>) {
        let mut out: Vec<u8> = Vec::new();
        assert(out@ =~= Self::spec_serialize(self@));
        out
    }

    fn take(data: &[u8], pos: usize) -> (r: Option<(SelectTp, usize)>) {
        let p = pos;
        Some((SelectTp, p))
    }

    proof fn lemma_roundtrip(v: SelectTp, rest: Seq<u8>) {
    }
}

impl MappedStruct for SelectTp {
    open spec fn spec_message() -> crate::ygopro::message::MessageType {
        crate::ygopro::message::MessageType::STOC(self::MessageType::SelectTp)
    }

    fn message() -> (r: crate::ygopro::message::MessageType) {
        crate::ygopro::message::MessageType::STOC(self::MessageType::SelectTp)
    }
}

/// The hands both players chose.
#[derive(Clone, Debug)]
pub struct HandResult {
    pub res1: u8,
    pub res2: u8,
}

impl View for HandResult {
    type V = HandResult;

    open spec fn view(&self) -> HandResult {
        *self
    }
}

impl Struct for HandResult {
    open spec fn spec_wf(v: HandResult) -> bool {
        true
    }

    open spec fn spec_fixed() -> bool {
        true
    }

    open spec fn spec_serialize(v: HandResult) -> Seq<u8> {
        seq![v.res1] + (seq![v.res2])
    }

    open spec fn spec_take(s: Seq<u8>) -> Option<(HandResult, Seq<u8>)> {
        match take_u8(s) { None => None, Some((res1, s)) => 
        match take_u8(s) { None => None, Some((res2, s)) => 
        Some((HandResult { res1, res2 }, s))
        } }
    }

    fn serialize(&self) -> (r: Vec<u8>) {
        let mut out: Vec<u8> = Vec::new();
        push_u8(&mut out, self.res1);
        push_u8(&mut out, self.res2);
        assert(out@ =~= Self::spec_serialize(self@));
        out
    }

    fn take(data: &[u8], pos: usize) -> (r: Option<(HandResult, usize)>) {
        let p = pos;
        let (res1, p) = match read_u8(data, p) { None => return None, Some(x) => x };
        let (res2, p) = match read_u8(data, p) { None => return None, Some(x) => x };
        Some((HandResult { res1, res2 }, p))
    }

    proof fn lemma_roundtrip(v: HandResult, rest: Seq<u8>) {
        let t1 = seq![v.res2];
        let t0 = seq![v.res1] + t1;
        assert(Self::spec_serialize(v) == t0);
        assert(t0 + rest =~= seq![v.res1] + (t1 + rest));
        lemma_u8_roundtrip(v.res1, t1 + rest);
        lemma_u8_roundtrip(v.res2, rest);
    }
}

/// The body of `HandResult` is laid out as the protocol has it, field by
/// field: res1, res2.
pub proof fn law_hand_result_layout(v: HandResult)
    requires
        HandResult::spec_wf(v),
    ensures
        HandResult::spec_serialize(v).len() == 2,
        HandResult::spec_serialize(v).subrange(0, 1) == seq![v.res1],
        HandResult::spec_serialize(v).subrange(1, 2) == seq![v.res2],
{
    let b = HandResult::spec_serialize(v);
    assert(b.subrange(0, 1) =~= seq![v.res1]);
    assert(b.subrange(1, 2) =~= seq![v.res2]);
}

impl MappedStruct for HandResult {
    open spec fn spec_message() -> crate::ygopro::message::MessageType {
        crate::ygopro::message::MessageType::STOC(self::MessageType::HandResult)
    }

    fn message() -> (r: crate::ygopro::message::MessageType) {
        crate::ygopro::message::MessageType::STOC(self::MessageType::HandResult)
    }
}

/// Who goes first.
#[derive(Clone, Debug)]
pub struct TpResult {
    pub res: u8,
}

impl View for TpResult {
    type V = TpResult;

    open spec fn view(&self) -> TpResult {
        *self
    }
}

impl Struct for TpResult {
    open spec fn spec_wf(v: TpResult) -> bool {
        true
    }

    open spec fn spec_fixed() -> bool {
        true
    }

    open spec fn spec_serialize(v: TpResult) -> Seq<u8> {
        seq![v.res]
    }

    open spec fn spec_take(s: Seq<u8>) -> Option<(TpResult, Seq<u8>)> {
        match take_u8(s) { None => None, Some((res, s)) => 
        Some((TpResult { res }, s))
        }
    }

    fn serialize(&self) -> (r: Vec<u8>) {
        let mut out: Vec<u8> = Vec::new();
        push_u8(&mut out, self.res);
        assert(out@ =~= Self::spec_serialize(self@));
        out
    }

    fn take(data: &[u8], pos: usize) -> (r: Option<(TpResult, usize)>) {
        let p = pos;
        let (res, p) = match read_u8(data, p) { None => return None, Some(x) => x };
        Some((TpResult { res }, p))
    }

    proof fn lemma_roundtrip(v: TpResult, rest: Seq<u8>) {
        let t0 = seq![v.res];
        assert(Self::spec_serialize(v) == t0);
        lemma_u8_roundtrip(v.res, rest);
    }
}

impl MappedStruct for TpResult {
    open spec fn spec_message() -> crate::ygopro::message::MessageType {
        crate::ygopro::message::MessageType::STOC(self::MessageType::TpResult)
    }

    fn message() -> (r: crate::ygopro::message::MessageType) {
        crate::ygopro::message::MessageType::STOC(self::MessageType::TpResult)
    }
}

/// Side decking begins.
#[derive(Clone, Debug)]
pub struct ChangeSide;

impl View for ChangeSide {
    type V = ChangeSide;

    open spec fn view(&self) -> ChangeSide {
        *self
    }
}

impl Struct for ChangeSide {
    open spec fn spec_wf(v: ChangeSide) -> bool {
        true
    }

    open spec fn spec_fixed() -> bool {
        true
    }

    open spec fn spec_serialize(v: ChangeSide) -> Seq<u8> {
        Seq::<u8>::empty()
    }

    open spec fn spec_take(s: Seq<u8>) -> Option<(ChangeSide, Seq<u8>)> {
        Some((ChangeSide, s))
    }

    fn serialize(&self) -> (r: Vec<u8>) {
        let mut out: Vec<u8> = Vec::new();
        assert(out@ =~= Self::spec_serialize(self@));
        out
    }

    fn take(data: &[u8], pos: usize) -> (r: Option<(ChangeSide, usize)>) {
        let p = pos;
        Some((ChangeSide, p))
    }

    proof fn lemma_roundtrip(v: ChangeSide, rest: Seq<u8>) {
    }
}

impl MappedStruct for ChangeSide {
    open spec fn spec_message() -> crate::ygopro::message::MessageType {
        crate::ygopro::message::MessageType::STOC(self::MessageType::ChangeSide)
    }

    fn message() -> (r: crate::ygopro::message::MessageType) {
        crate::ygopro::message::MessageType::STOC(self::MessageType::ChangeSide)
    }
}

/// Waiting for the opponent to side deck.
#[derive(Clone, Debug)]
pub struct WaitingSide;

impl View for WaitingSide {
    type V = WaitingSide;

    open spec fn view(&self) -> WaitingSide {
        *self
    }
}

impl Struct for WaitingSide {
    open spec fn spec_wf(v: WaitingSide) -> bool {
        true
    }

    open spec fn spec_fixed() -> bool {
        true
    }

    open spec fn spec_serialize(v: WaitingSide) -> Seq<u8> {
        Seq::<u8>::empty()
    }

    open spec fn spec_take(s: Seq<u8>) -> Option<(WaitingSide, Seq<u8>)> {
        Some((WaitingSide, s))
    }

    fn serialize(&self) -> (r: Vec<u8>) {
        let mut out: Vec<u8> = Vec::new();
        assert(out@ =~= Self::spec_serialize(self@));
        out
    }

    fn take(data: &[u8], pos: usize) -> (r: Option<(WaitingSide, usize)>) {
        let p = pos;
        Some((WaitingSide, p))
    }

    proof fn lemma_roundtrip(v: WaitingSide, rest: Seq<u8>) {
    }
}

impl MappedStruct for WaitingSide {
    open spec fn spec_message() -> crate::ygopro::message::MessageType {
        crate::ygopro::message::MessageType::STOC(self::MessageType::WaitingSide)
    }

    fn message() -> (r: crate::ygopro::message::MessageType) {
        crate::ygopro::message::MessageType::STOC(self::MessageType::WaitingSide)
    }
}

/// A game was created.
#[derive(Clone, Debug)]
pub struct CreateGame {
    pub gameid: u32,
}

impl View for CreateGame {
    type V = CreateGame;

    open spec fn view(&self) -> CreateGame {
        *self
    }
}

impl Struct for CreateGame {
    open spec fn spec_wf(v: CreateGame) -> bool {
        true
    }

    open spec fn spec_fixed() -> bool {
        true
    }

    open spec fn spec_serialize(v: CreateGame) -> Seq<u8> {
        le_u32(v.gameid)
    }

    open spec fn spec_take(s: Seq<u8>) -> Option<(CreateGame, Seq<u8>)> {
        match take_u32(s) { None => None, Some((gameid, s)) => 
        Some((CreateGame { gameid }, s))
        }
    }

    fn serialize(&self) -> (r: Vec<u8>) {
        let mut out: Vec<u8> = Vec::new();
        push_u32(&mut out, self.gameid);
        assert(out@ =~= Self::spec_serialize(self@));
        out
    }

    fn take(data: &[u8], pos: usize) -> (r: Option<(CreateGame, usize)>) {
        let p = pos;
        let (gameid, p) = match read_u32(data, p) { None => return None, Some(x) => x };
        Some((CreateGame { gameid }, p))
    }

    proof fn lemma_roundtrip(v: CreateGame, rest: Seq<u8>) {
        let t0 = le_u32(v.gameid);
        assert(Self::spec_serialize(v) == t0);
        lemma_u32_roundtrip(v.gameid, rest);
    }
}

impl MappedStruct for CreateGame {
    open spec fn spec_message() -> crate::ygopro::message::MessageType {
        crate::ygopro::message::MessageType::STOC(self::MessageType::CreateGame)
    }

    fn message() -> (r: crate::ygopro::message::MessageType) {
        crate::ygopro::message::MessageType::STOC(self::MessageType::CreateGame)
    }
}

/// The room that was joined, with its rules.
#[derive(Clone, Debug)]
pub struct JoinGame {
    pub info: HostInfo,
}

/// The model of a [`JoinGame`]: arrays and vectors as sequences.
pub struct JoinGameView {
    pub info: HostInfoView,
}

impl View for JoinGame {
    type V = JoinGameView;

    open spec fn view(&self) -> JoinGameView {
        JoinGameView { info: self.info@ }
    }
}

impl Struct for JoinGame {
    open spec fn spec_wf(v: JoinGameView) -> bool {
        HostInfo::spec_wf(v.info)
    }

    open spec fn spec_fixed() -> bool {
        true
    }

    open spec fn spec_serialize(v: JoinGameView) -> Seq<u8> {
        HostInfo::spec_serialize(v.info)
    }

    open spec fn spec_take(s: Seq<u8>) -> Option<(JoinGameView, Seq<u8>)> {
        match HostInfo::spec_take(s) { None => None, Some((info, s)) => 
        Some((JoinGameView { info }, s))
        }
    }

    fn serialize(&self) -> (r: Vec<u8>) {
        let mut out: Vec<u8> = Vec::new();
        let piece = self.info.serialize();
        push_bytes(&mut out, piece.as_slice());
        assert(out@ =~= Self::spec_serialize(self@));
        out
    }

    fn take(data: &[u8], pos: usize) -> (r: Option<(JoinGame, usize)>) {
        let p = pos;
        let (info, p) = match HostInfo::take(data, p) { None => return None, Some(x) => x };
        Some((JoinGame { info }, p))
    }

    proof fn lemma_roundtrip(v: JoinGameView, rest: Seq<u8>) {
        let t0 = HostInfo::spec_serialize(v.info);
        assert(Self::spec_serialize(v) == t0);
        HostInfo::lemma_roundtrip(v.info, rest);
    }
}

impl MappedStruct for JoinGame {
    open spec fn spec_message() -> crate::ygopro::message::MessageType {
        crate::ygopro::message::MessageType::STOC(self::MessageType::JoinGame)
    }

    fn message() -> (r: crate::ygopro::message::MessageType) {
        crate::ygopro::message::MessageType::STOC(self::MessageType::JoinGame)
    }
}

/// The seat of the receiver (low four bits), and whether it hosts (high four bits).
#[derive(Clone, Debug)]
pub struct TypeChange {
    pub _type: u8,
}

impl View for TypeChange {
    type V = TypeChange;

    open spec fn view(&self) -> TypeChange {
        *self
    }
}

impl Struct for TypeChange {
    open spec fn spec_wf(v: TypeChange) -> bool {
        true
    }

    open spec fn spec_fixed() -> bool {
        true
    }

    open spec fn spec_serialize(v: TypeChange) -> Seq<u8> {
        seq![v._type]
    }

    open spec fn spec_take(s: Seq<u8>) -> Option<(TypeChange, Seq<u8>)> {
        match take_u8(s) { None => None, Some((_type, s)) => 
        Some((TypeChange { _type }, s))
        }
    }

    fn serialize(&self) -> (r: Vec<u8>) {
        let mut out: Vec<u8> = Vec::new();
        push_u8(&mut out, self._type);
        assert(out@ =~= Self::spec_serialize(self@));
        out
    }

    fn take(data: &[u8], pos: usize) -> (r: Option<(TypeChange, usize)>) {
        let p = pos;
        let (_type, p) = match read_u8(data, p) { None => return None, Some(x) => x };
        Some((TypeChange { _type }, p))
    }

    proof fn lemma_roundtrip(v: TypeChange, rest: Seq<u8>) {
        let t0 = seq![v._type];
        assert(Self::spec_serialize(v) == t0);
        lemma_u8_roundtrip(v._type, rest);
    }
}

impl MappedStruct for TypeChange {
    open spec fn spec_message() -> crate::ygopro::message::MessageType {
        crate::ygopro::message::MessageType::STOC(self::MessageType::TypeChange)
    }

    fn message() -> (r: crate::ygopro::message::MessageType) {
        crate::ygopro::message::MessageType::STOC(self::MessageType::TypeChange)
    }
}

/// A seat was left.
#[derive(Clone, Debug)]
pub struct LeaveGame {
    pub pos: Netplayer,
}

impl View for LeaveGame {
    type V = LeaveGame;

    open spec fn view(&self) -> LeaveGame {
        *self
    }
}

impl Struct for LeaveGame {
    open spec fn spec_wf(v: LeaveGame) -> bool {
        true
    }

    open spec fn spec_fixed() -> bool {
        true
    }

    open spec fn spec_serialize(v: LeaveGame) -> Seq<u8> {
        seq![v.pos.spec_value()]
    }

    open spec fn spec_take(s: Seq<u8>) -> Option<(LeaveGame, Seq<u8>)> {
        match take_u8(s) { None => None, Some((pos_code, s)) => match Netplayer::spec_try_from(pos_code) { None => None, Some(pos) => 
        Some((LeaveGame { pos }, s))
        }}
    }

    fn serialize(&self) -> (r: Vec<u8>) {
        let mut out: Vec<u8> = Vec::new();
        push_u8(&mut out, self.pos.into_u8());
        assert(out@ =~= Self::spec_serialize(self@));
        out
    }

    fn take(data: &[u8], pos: usize) -> (r: Option<(LeaveGame, usize)>) {
        let p = pos;
        let (pos_code, p) = match read_u8(data, p) { None => return None, Some(x) => x };
        let pos = match Netplayer::try_from_u8(pos_code) { None => return None, Some(x) => x };
        Some((LeaveGame { pos }, p))
    }

    proof fn lemma_roundtrip(v: LeaveGame, rest: Seq<u8>) {
        let t0 = seq![v.pos.spec_value()];
        assert(Self::spec_serialize(v) == t0);
        lemma_u8_roundtrip(v.pos.spec_value(), rest);
        v.pos.lemma_value_roundtrip(0);
    }
}

impl MappedStruct for LeaveGame {
    open spec fn spec_message() -> crate::ygopro::message::MessageType {
        crate::ygopro::message::MessageType::STOC(self::MessageType::LeaveGame)
    }

    fn message() -> (r: crate::ygopro::message::MessageType) {
        crate::ygopro::message::MessageType::STOC(self::MessageType::LeaveGame)
    }
}

/// The duel starts.
#[derive(Clone, Debug)]
pub struct DuelStart;

impl View for DuelStart {
    type V = DuelStart;

    open spec fn view(&self) -> DuelStart {
        *self
    }
}

impl Struct for DuelStart {
    open spec fn spec_wf(v: DuelStart) -> bool {
        true
    }

    open spec fn spec_fixed() -> bool {
        true
    }

    open spec fn spec_serialize(v: DuelStart) -> Seq<u8> {
        Seq::<u8>::empty()
    }

    open spec fn spec_take(s: Seq<u8>) -> Option<(DuelStart, Seq<u8>)> {
        Some((DuelStart, s))
    }

    fn serialize(&self) -> (r: Vec<u8>) {
        let mut out: Vec<u8> = Vec::new();
        assert(out@ =~= Self::spec_serialize(self@));
        out
    }

    fn take(data: &[u8], pos: usize) -> (r: Option<(DuelStart, usize)>) {
        let p = pos;
        Some((DuelStart, p))
    }

    proof fn lemma_roundtrip(v: DuelStart, rest: Seq<u8>) {
    }
}

impl MappedStruct for DuelStart {
    open spec fn spec_message() -> crate::ygopro::message::MessageType {
        crate::ygopro::message::MessageType::STOC(self::MessageType::DuelStart)
    }

    fn message() -> (r: crate::ygopro::message::MessageType) {
        crate::ygopro::message::MessageType::STOC(self::MessageType::DuelStart)
    }
}

/// The duel ended.
#[derive(Clone, Debug)]
pub struct DuelEnd;

impl View for DuelEnd {
    type V = DuelEnd;

    open spec fn view(&self) -> DuelEnd {
        *self
    }
}

impl Struct for DuelEnd {
    open spec fn spec_wf(v: DuelEnd) -> bool {
        true
    }

    open spec fn spec_fixed() -> bool {
        true
    }

    open spec fn spec_serialize(v: DuelEnd) -> Seq<u8> {
        Seq::<u8>::empty()
    }

    open spec fn spec_take(s: Seq<u8>) -> Option<(DuelEnd, Seq<u8>)> {
        Some((DuelEnd, s))
    }

    fn serialize(&self) -> (r: Vec<u8>) {
        let mut out: Vec<u8> = Vec::new();
        assert(out@ =~= Self::spec_serialize(self@));
        out
    }

    fn take(data: &[u8], pos: usize) -> (r: Option<(DuelEnd, usize)>) {
        let p = pos;
        Some((DuelEnd, p))
    }

    proof fn lemma_roundtrip(v: DuelEnd, rest: Seq<u8>) {
    }
}

impl MappedStruct for DuelEnd {
    open spec fn spec_message() -> crate::ygopro::message::MessageType {
        crate::ygopro::message::MessageType::STOC(self::MessageType::DuelEnd)
    }

    fn message() -> (r: crate::ygopro::message::MessageType) {
        crate::ygopro::message::MessageType::STOC(self::MessageType::DuelEnd)
    }
}

/// A replay of the last duel.
#[derive(Clone, Debug)]
pub struct Replay {
    pub data: Vec<u8>,
}

/// The model of a [`Replay`]: arrays and vectors as sequences.
pub struct ReplayView {
    pub data: Seq<u8>,
}

impl View for Replay {
    type V = ReplayView;

    open spec fn view(&self) -> ReplayView {
        ReplayView { data: self.data@ }
    }
}

impl Struct for Replay {
    open spec fn spec_wf(v: ReplayView) -> bool {
        v.data.len() <= 65536
    }

    open spec fn spec_fixed() -> bool {
        false
    }

    open spec fn spec_serialize(v: ReplayView) -> Seq<u8> {
        v.data
    }

    open spec fn spec_take(s: Seq<u8>) -> Option<(ReplayView, Seq<u8>)> {
        { let (data, s) = take_bytes_greedy(s, 65536); 
        Some((ReplayView { data }, s))
        }
    }

    fn serialize(&self) -> (r: Vec<u8>) {
        let mut out: Vec<u8> = Vec::new();
        push_bytes(&mut out, self.data.as_slice());
        assert(out@ =~= Self::spec_serialize(self@));
        out
    }

    fn take(data: &[u8], pos: usize) -> (r: Option<(Replay, usize)>) {
        let p = pos;
        let (data, p) = read_bytes_greedy(data, p, 65536);
        Some((Replay { data }, p))
    }

    proof fn lemma_roundtrip(v: ReplayView, rest: Seq<u8>) {
        let t0 = v.data;
        assert(Self::spec_serialize(v) == t0);
        assert(t0 + rest =~= t0);
        lemma_bytes_roundtrip(v.data, 65536);
    }
}

impl MappedStruct for Replay {
    open spec fn spec_message() -> crate::ygopro::message::MessageType {
        crate::ygopro::message::MessageType::STOC(self::MessageType::Replay)
    }

    fn message() -> (r: crate::ygopro::message::MessageType) {
        crate::ygopro::message::MessageType::STOC(self::MessageType::Replay)
    }
}

/// Time left to a player; the client answers with a time confirmation.
#[derive(Clone, Debug)]
pub struct TimeLimit {
    pub player: Netplayer,
    pub left_time: u16,
}

impl View for TimeLimit {
    type V = TimeLimit;

    open spec fn view(&self) -> TimeLimit {
        *self
    }
}

impl Struct for TimeLimit {
    open spec fn spec_wf(v: TimeLimit) -> bool {
        true
    }

    open spec fn spec_fixed() -> bool {
        true
    }

    open spec fn spec_serialize(v: TimeLimit) -> Seq<u8> {
        seq![v.player.spec_value()] + (le_u16(v.left_time))
    }

    open spec fn spec_take(s: Seq<u8>) -> Option<(TimeLimit, Seq<u8>)> {
        match take_u8(s) { None => None, Some((player_code, s)) => match Netplayer::spec_try_from(player_code) { None => None, Some(player) => 
        match take_u16(s) { None => None, Some((left_time, s)) => 
        Some((TimeLimit { player, left_time }, s))
        }} }
    }

    fn serialize(&self) -> (r: Vec<u8>) {
        let mut out: Vec<u8> = Vec::new();
        push_u8(&mut out, self.player.into_u8());
        push_u16(&mut out, self.left_time);
        assert(out@ =~= Self::spec_serialize(self@));
        out
    }

    fn take(data: &[u8], pos: usize) -> (r: Option<(TimeLimit, usize)>) {
        let p = pos;
        let (player_code, p) = match read_u8(data, p) { None => return None, Some(x) => x };
        let player = match Netplayer::try_from_u8(player_code) { None => return None, Some(x) => x };
        let (left_time, p) = match read_u16(data, p) { None => return None, Some(x) => x };
        Some((TimeLimit { player, left_time }, p))
    }

    proof fn lemma_roundtrip(v: TimeLimit, rest: Seq<u8>) {
        let t1 = le_u16(v.left_time);
        let t0 = seq![v.player.spec_value()] + t1;
        assert(Self::spec_serialize(v) == t0);
        assert(t0 + rest =~= seq![v.player.spec_value()] + (t1 + rest));
        lemma_u8_roundtrip(v.player.spec_value(), t1 + rest);
        v.player.lemma_value_roundtrip(0);
        lemma_u16_roundtrip(v.left_time, rest);
    }
}

/// The body of `TimeLimit` is laid out as the protocol has it, field by
/// field: player, left_time.
pub proof fn law_time_limit_layout(v: TimeLimit)
    requires
        TimeLimit::spec_wf(v),
    ensures
        TimeLimit::spec_serialize(v).len() == 3,
        TimeLimit::spec_serialize(v).subrange(0, 1) == seq![v.player.spec_value()],
        TimeLimit::spec_serialize(v).subrange(1, 3) == le_u16(v.left_time),
{
    let b = TimeLimit::spec_serialize(v);
    assert(b.subrange(0, 1) =~= seq![v.player.spec_value()]);
    assert(b.subrange(1, 3) =~= le_u16(v.left_time));
}

impl MappedStruct for TimeLimit {
    open spec fn spec_message() -> crate::ygopro::message::MessageType {
        crate::ygopro::message::MessageType::STOC(self::MessageType::TimeLimit)
    }

    fn message() -> (r: crate::ygopro::message::MessageType) {
        crate::ygopro::message::MessageType::STOC(self::MessageType::TimeLimit)
    }
}

/// A chat line; `name` is the seat or the colour.
#[derive(Clone, Debug)]
pub struct Chat {
    pub name: u16,
    pub msg: Vec<u16>,
}

/// The model of a [`Chat`]: arrays and vectors as sequences.
pub struct ChatView {
    pub name: u16,
    pub msg: Seq<u16>,
}

impl View for Chat {
    type V = ChatView;

    open spec fn view(&self) -> ChatView {
        ChatView { name: self.name, msg: self.msg@ }
    }
}

impl Struct for Chat {
    open spec fn spec_wf(v: ChatView) -> bool {
        v.msg.len() <= 255
    }

    open spec fn spec_fixed() -> bool {
        false
    }

    open spec fn spec_serialize(v: ChatView) -> Seq<u8> {
        le_u16(v.name) + (le_u16s(v.msg))
    }

    open spec fn spec_take(s: Seq<u8>) -> Option<(ChatView, Seq<u8>)> {
        match take_u16(s) { None => None, Some((name, s)) => 
        { let (msg, s) = take_u16s_greedy(s, 255); 
        Some((ChatView { name, msg }, s))
        } }
    }

    fn serialize(&self) -> (r: Vec<u8>) {
        let mut out: Vec<u8> = Vec::new();
        push_u16(&mut out, self.name);
        push_u16s(&mut out, self.msg.as_slice());
        assert(out@ =~= Self::spec_serialize(self@));
        out
    }

    fn take(data: &[u8], pos: usize) -> (r: Option<(Chat, usize)>) {
        let p = pos;
        let (name, p) = match read_u16(data, p) { None => return None, Some(x) => x };
        let (msg, p) = read_u16s_greedy(data, p, 255);
        Some((Chat { name, msg }, p))
    }

    proof fn lemma_roundtrip(v: ChatView, rest: Seq<u8>) {
        let t1 = le_u16s(v.msg);
        let t0 = le_u16(v.name) + t1;
        assert(Self::spec_serialize(v) == t0);
        assert(t0 + rest =~= le_u16(v.name) + (t1 + rest));
        lemma_u16_roundtrip(v.name, t1 + rest);
        assert(t1 + rest =~= t1);
        lemma_u16s_greedy_roundtrip(v.msg, 255);
    }
}

/// The body of `Chat` is laid out as the protocol has it, field by
/// field: name, msg.
pub proof fn law_chat_layout(v: ChatView)
    requires
        Chat::spec_wf(v),
    ensures
        Chat::spec_serialize(v).subrange(0, 2) == le_u16(v.name),
        Chat::spec_serialize(v).skip(2) == le_u16s(v.msg),
{
    let b = Chat::spec_serialize(v);
    assert(b.subrange(0, 2) =~= le_u16(v.name));
    assert(b.skip(2) =~= le_u16s(v.msg));
}

impl MappedStruct for Chat {
    open spec fn spec_message() -> crate::ygopro::message::MessageType {
        crate::ygopro::message::MessageType::STOC(self::MessageType::Chat)
    }

    fn message() -> (r: crate::ygopro::message::MessageType) {
        crate::ygopro::message::MessageType::STOC(self::MessageType::Chat)
    }
}

/// A player entered a seat.
#[derive(Clone, Debug)]
pub struct HsPlayerEnter {
    pub name: [u16; 20],
    pub pos: u8,
}

/// The model of a [`HsPlayerEnter`]: arrays and vectors as sequences.
pub struct HsPlayerEnterView {
    pub name: Seq<u16>,
    pub pos: u8,
}

impl View for HsPlayerEnter {
    type V = HsPlayerEnterView;

    open spec fn view(&self) -> HsPlayerEnterView {
        HsPlayerEnterView { name: self.name@, pos: self.pos }
    }
}

impl Struct for HsPlayerEnter {
    open spec fn spec_wf(v: HsPlayerEnterView) -> bool {
        v.name.len() == 20
    }

    open spec fn spec_fixed() -> bool {
        true
    }

    open spec fn spec_serialize(v: HsPlayerEnterView) -> Seq<u8> {
        le_u16s(v.name) + (seq![v.pos])
    }

    open spec fn spec_take(s: Seq<u8>) -> Option<(HsPlayerEnterView, Seq<u8>)> {
        match take_u16s(s, 20) { None => None, Some((name, s)) => 
        match take_u8(s) { None => None, Some((pos, s)) => 
        Some((HsPlayerEnterView { name, pos }, s))
        } }
    }

    fn serialize(&self) -> (r: Vec<u8>) {
        let mut out: Vec<u8> = Vec::new();
        push_u16_array20(&mut out, &self.name);
        push_u8(&mut out, self.pos);
        assert(out@ =~= Self::spec_serialize(self@));
        out
    }

    fn take(data: &[u8], pos: usize) -> (r: Option<(HsPlayerEnter, usize)>) {
        let p = pos;
        let (name, p) = match read_u16_array20(data, p) { None => return None, Some(x) => x };
        let (pos, p) = match read_u8(data, p) { None => return None, Some(x) => x };
        Some((HsPlayerEnter { name, pos }, p))
    }

    proof fn lemma_roundtrip(v: HsPlayerEnterView, rest: Seq<u8>) {
        let t1 = seq![v.pos];
        let t0 = le_u16s(v.name) + t1;
        assert(Self::spec_serialize(v) == t0);
        assert(t0 + rest =~= le_u16s(v.name) + (t1 + rest));
        lemma_u16s_roundtrip(v.name, t1 + rest);
        lemma_u8_roundtrip(v.pos, rest);
    }
}

/// The body of `HsPlayerEnter` is laid out as the protocol has it, field by
/// field: name, pos.
pub proof fn law_hs_player_enter_layout(v: HsPlayerEnterView)
    requires
        HsPlayerEnter::spec_wf(v),
    ensures
        HsPlayerEnter::spec_serialize(v).len() == 41,
        HsPlayerEnter::spec_serialize(v).subrange(0, 40) == le_u16s(v.name),
        HsPlayerEnter::spec_serialize(v).subrange(40, 41) == seq![v.pos],
{
    let b = HsPlayerEnter::spec_serialize(v);
    assert(b.subrange(0, 40) =~= le_u16s(v.name));
    assert(b.subrange(40, 41) =~= seq![v.pos]);
}

impl MappedStruct for HsPlayerEnter {
    open spec fn spec_message() -> crate::ygopro::message::MessageType {
        crate::ygopro::message::MessageType::STOC(self::MessageType::HsPlayerEnter)
    }

    fn message() -> (r: crate::ygopro::message::MessageType) {
        crate::ygopro::message::MessageType::STOC(self::MessageType::HsPlayerEnter)
    }
}

/// A seat changed state.
#[derive(Clone, Debug)]
pub struct HsPlayerChange {
    pub status: u8,
}

impl View for HsPlayerChange {
    type V = HsPlayerChange;

    open spec fn view(&self) -> HsPlayerChange {
        *self
    }
}

impl Struct for HsPlayerChange {
    open spec fn spec_wf(v: HsPlayerChange) -> bool {
        true
    }

    open spec fn spec_fixed() -> bool {
        true
    }

    open spec fn spec_serialize(v: HsPlayerChange) -> Seq<u8> {
        seq![v.status]
    }

    open spec fn spec_take(s: Seq<u8>) -> Option<(HsPlayerChange, Seq<u8>)> {
        match take_u8(s) { None => None, Some((status, s)) => 
        Some((HsPlayerChange { status }, s))
        }
    }

    fn serialize(&self) -> (r: Vec<u8>) {
        let mut out: Vec<u8> = Vec::new();
        push_u8(&mut out, self.status);
        assert(out@ =~= Self::spec_serialize(self@));
        out
    }

    fn take(data: &[u8], pos: usize) -> (r: Option<(HsPlayerChange, usize)>) {
        let p = pos;
        let (status, p) = match read_u8(data, p) { None => return None, Some(x) => x };
        Some((HsPlayerChange { status }, p))
    }

    proof fn lemma_roundtrip(v: HsPlayerChange, rest: Seq<u8>) {
        let t0 = seq![v.status];
        assert(Self::spec_serialize(v) == t0);
        lemma_u8_roundtrip(v.status, rest);
    }
}

impl MappedStruct for HsPlayerChange {
    open spec fn spec_message() -> crate::ygopro::message::MessageType {
        crate::ygopro::message::MessageType::STOC(self::MessageType::HsPlayerChange)
    }

    fn message() -> (r: crate::ygopro::message::MessageType) {
        crate::ygopro::message::MessageType::STOC(self::MessageType::HsPlayerChange)
    }
}

/// How many watch the duel.
#[derive(Clone, Debug)]
pub struct HsWatchChange {
    pub match_count: u16,
}

impl View for HsWatchChange {
    type V = HsWatchChange;

    open spec fn view(&self) -> HsWatchChange {
        *self
    }
}

impl Struct for HsWatchChange {
    open spec fn spec_wf(v: HsWatchChange) -> bool {
        true
    }

    open spec fn spec_fixed() -> bool {
        true
    }

    open spec fn spec_serialize(v: HsWatchChange) -> Seq<u8> {
        le_u16(v.match_count)
    }

    open spec fn spec_take(s: Seq<u8>) -> Option<(HsWatchChange, Seq<u8>)> {
        match take_u16(s) { None => None, Some((match_count, s)) => 
        Some((HsWatchChange { match_count }, s))
        }
    }

    fn serialize(&self) -> (r: Vec<u8>) {
        let mut out: Vec<u8> = Vec::new();
        push_u16(&mut out, self.match_count);
        assert(out@ =~= Self::spec_serialize(self@));
        out
    }

    fn take(data: &[u8], pos: usize) -> (r: Option<(HsWatchChange, usize)>) {
        let p = pos;
        let (match_count, p) = match read_u16(data, p) { None => return None, Some(x) => x };
        Some((HsWatchChange { match_count }, p))
    }

    proof fn lemma_roundtrip(v: HsWatchChange, rest: Seq<u8>) {
        let t0 = le_u16(v.match_count);
        assert(Self::spec_serialize(v) == t0);
        lemma_u16_roundtrip(v.match_count, rest);
    }
}

impl MappedStruct for HsWatchChange {
    open spec fn spec_message() -> crate::ygopro::message::MessageType {
        crate::ygopro::message::MessageType::STOC(self::MessageType::HsWatchChange)
    }

    fn message() -> (r: crate::ygopro::message::MessageType) {
        crate::ygopro::message::MessageType::STOC(self::MessageType::HsWatchChange)
    }
}

/// The whole field was sent.
#[derive(Clone, Debug)]
pub struct FieldFinish;

impl View for FieldFinish {
    type V = FieldFinish;

    open spec fn view(&self) -> FieldFinish {
        *self
    }
}

impl Struct for FieldFinish {
    open spec fn spec_wf(v: FieldFinish) -> bool {
        true
    }

    open spec fn spec_fixed() -> bool {
        true
    }

    open spec fn spec_serialize(v: FieldFinish) -> Seq<u8> {
        Seq::<u8>::empty()
    }

    open spec fn spec_take(s: Seq<u8>) -> Option<(FieldFinish, Seq<u8>)> {
        Some((FieldFinish, s))
    }

    fn serialize(&self) -> (r: Vec<u8>) {
        let mut out: Vec<u8> = Vec::new();
        assert(out@ =~= Self::spec_serialize(self@));
        out
    }

    fn take(data: &[u8], pos: usize) -> (r: Option<(FieldFinish, usize)>) {
        let p = pos;
        Some((FieldFinish, p))
    }

    proof fn lemma_roundtrip(v: FieldFinish, rest: Seq<u8>) {
    }
}

impl MappedStruct for FieldFinish {
    open spec fn spec_message() -> crate::ygopro::message::MessageType {
        crate::ygopro::message::MessageType::STOC(self::MessageType::FieldFinish)
    }

    fn message() -> (r: crate::ygopro::message::MessageType) {
        crate::ygopro::message::MessageType::STOC(self::MessageType::FieldFinish)
    }
}

/// Deck sizes of self and opponent.
#[derive(Clone, Debug)]
pub struct DeckCount {
    pub mainc_s: u16,
    pub sidec_s: u16,
    pub extrac_s: u16,
    pub mainc_o: u16,
    pub sidec_o: u16,
    pub extrac_o: u16,
}

impl View for DeckCount {
    type V = DeckCount;

    open spec fn view(&self) -> DeckCount {
        *self
    }
}

impl Struct for DeckCount {
    open spec fn spec_wf(v: DeckCount) -> bool {
        true
    }

    open spec fn spec_fixed() -> bool {
        true
    }

    open spec fn spec_serialize(v: DeckCount) -> Seq<u8> {
        le_u16(v.mainc_s) + (le_u16(v.sidec_s) + (le_u16(v.extrac_s) + (le_u16(v.mainc_o) + (le_u16(v.sidec_o) + (le_u16(v.extrac_o))))))
    }

    open spec fn spec_take(s: Seq<u8>) -> Option<(DeckCount, Seq<u8>)> {
        match take_u16(s) { None => None, Some((mainc_s, s)) => 
        match take_u16(s) { None => None, Some((sidec_s, s)) => 
        match take_u16(s) { None => None, Some((extrac_s, s)) => 
        match take_u16(s) { None => None, Some((mainc_o, s)) => 
        match take_u16(s) { None => None, Some((sidec_o, s)) => 
        match take_u16(s) { None => None, Some((extrac_o, s)) => 
        Some((DeckCount { mainc_s, sidec_s, extrac_s, mainc_o, sidec_o, extrac_o }, s))
        } } } } } }
    }

    fn serialize(&self) -> (r: Vec<u8>) {
        let mut out: Vec<u8> = Vec::new();
        push_u16(&mut out, self.mainc_s);
        push_u16(&mut out, self.sidec_s);
        push_u16(&mut out, self.extrac_s);
        push_u16(&mut out, self.mainc_o);
        push_u16(&mut out, self.sidec_o);
        push_u16(&mut out, self.extrac_o);
        assert(out@ =~= Self::spec_serialize(self@));
        out
    }

    fn take(data: &[u8], pos: usize) -> (r: Option<(DeckCount, usize)>) {
        let p = pos;
        let (mainc_s, p) = match read_u16(data, p) { None => return None, Some(x) => x };
        let (sidec_s, p) = match read_u16(data, p) { None => return None, Some(x) => x };
        let (extrac_s, p) = match read_u16(data, p) { None => return None, Some(x) => x };
        let (mainc_o, p) = match read_u16(data, p) { None => return None, Some(x) => x };
        let (sidec_o, p) = match read_u16(data, p) { None => return None, Some(x) => x };
        let (extrac_o, p) = match read_u16(data, p) { None => return None, Some(x) => x };
        Some((DeckCount { mainc_s, sidec_s, extrac_s, mainc_o, sidec_o, extrac_o }, p))
    }

    proof fn lemma_roundtrip(v: DeckCount, rest: Seq<u8>) {
        let t5 = le_u16(v.extrac_o);
        let t4 = le_u16(v.sidec_o) + t5;
        let t3 = le_u16(v.mainc_o) + t4;
        let t2 = le_u16(v.extrac_s) + t3;
        let t1 = le_u16(v.sidec_s) + t2;
        let t0 = le_u16(v.mainc_s) + t1;
        assert(Self::spec_serialize(v) == t0);
        assert(t0 + rest =~= le_u16(v.mainc_s) + (t1 + rest));
        lemma_u16_roundtrip(v.mainc_s, t1 + rest);
        assert(t1 + rest =~= le_u16(v.sidec_s) + (t2 + rest));
        lemma_u16_roundtrip(v.sidec_s, t2 + rest);
        assert(t2 + rest =~= le_u16(v.extrac_s) + (t3 + rest));
        lemma_u16_roundtrip(v.extrac_s, t3 + rest);
        assert(t3 + rest =~= le_u16(v.mainc_o) + (t4 + rest));
        lemma_u16_roundtrip(v.mainc_o, t4 + rest);
        assert(t4 + rest =~= le_u16(v.sidec_o) + (t5 + rest));
        lemma_u16_roundtrip(v.sidec_o, t5 + rest);
        lemma_u16_roundtrip(v.extrac_o, rest);
    }
}

/// The body of `DeckCount` is laid out as the protocol has it, field by
/// field: mainc_s, sidec_s, extrac_s, mainc_o, sidec_o, extrac_o.
pub proof fn law_deck_count_layout(v: DeckCount)
    requires
        DeckCount::spec_wf(v),
    ensures
        DeckCount::spec_serialize(v).len() == 12,
        DeckCount::spec_serialize(v).subrange(0, 2) == le_u16(v.mainc_s),
        DeckCount::spec_serialize(v).subrange(2, 4) == le_u16(v.sidec_s),
        DeckCount::spec_serialize(v).subrange(4, 6) == le_u16(v.extrac_s),
        DeckCount::spec_serialize(v).subrange(6, 8) == le_u16(v.mainc_o),
        DeckCount::spec_serialize(v).subrange(8, 10) == le_u16(v.sidec_o),
        DeckCount::spec_serialize(v).subrange(10, 12) == le_u16(v.extrac_o),
{
    let b = DeckCount::spec_serialize(v);
    assert(b.subrange(0, 2) =~= le_u16(v.mainc_s));
    assert(b.subrange(2, 4) =~= le_u16(v.sidec_s));
    assert(b.subrange(4, 6) =~= le_u16(v.extrac_s));
    assert(b.subrange(6, 8) =~= le_u16(v.mainc_o));
    assert(b.subrange(8, 10) =~= le_u16(v.sidec_o));
    assert(b.subrange(10, 12) =~= le_u16(v.extrac_o));
}

impl MappedStruct for DeckCount {
    open spec fn spec_message() -> crate::ygopro::message::MessageType {
        crate::ygopro::message::MessageType::STOC(self::MessageType::DeckCount)
    }

    fn message() -> (r: crate::ygopro::message::MessageType) {
        crate::ygopro::message::MessageType::STOC(self::MessageType::DeckCount)
    }
}

/// The general message type of a server-to-client type.
pub fn generate_message_type(_type: self::MessageType) -> (r: crate::ygopro::message::MessageType)
    ensures
        r == crate::ygopro::message::MessageType::STOC(_type),
{
    crate::ygopro::message::MessageType::STOC(_type)
}

impl MessageType {
    /// The name of this value.
    pub open spec fn spec_name(self) -> Seq<char> {
        match self {
            MessageType::GameMessage => "GameMessage"@,
            MessageType::ErrorMessage => "ErrorMessage"@,
            MessageType::SelectHand => "SelectHand"@,
            MessageType::SelectTp => "SelectTp"@,
            MessageType::HandResult => "HandResult"@,
            MessageType::TpResult => "TpResult"@,
            MessageType::ChangeSide => "ChangeSide"@,
            MessageType::WaitingSide => "WaitingSide"@,
            MessageType::DeckCount => "DeckCount"@,
            MessageType::CreateGame => "CreateGame"@,
            MessageType::JoinGame => "JoinGame"@,
            MessageType::TypeChange => "TypeChange"@,
            MessageType::LeaveGame => "LeaveGame"@,
            MessageType::DuelStart => "DuelStart"@,
            MessageType::DuelEnd => "DuelEnd"@,
            MessageType::Replay => "Replay"@,
            MessageType::TimeLimit => "TimeLimit"@,
            MessageType::Chat => "Chat"@,
            MessageType::HsPlayerEnter => "HsPlayerEnter"@,
            MessageType::HsPlayerChange => "HsPlayerChange"@,
            MessageType::HsWatchChange => "HsWatchChange"@,
            MessageType::FieldFinish => "FieldFinish"@,
        }
    }

    /// The name of this value.
    pub fn name(self) -> (r: &'static str)
        ensures
            r@ == self.spec_name(),
    {
        match self {
            MessageType::GameMessage => "GameMessage",
            MessageType::ErrorMessage => "ErrorMessage",
            MessageType::SelectHand => "SelectHand",
            MessageType::SelectTp => "SelectTp",
            MessageType::HandResult => "HandResult",
            MessageType::TpResult => "TpResult",
            MessageType::ChangeSide => "ChangeSide",
            MessageType::WaitingSide => "WaitingSide",
            MessageType::DeckCount => "DeckCount",
            MessageType::CreateGame => "CreateGame",
            MessageType::JoinGame => "JoinGame",
            MessageType::TypeChange => "TypeChange",
            MessageType::LeaveGame => "LeaveGame",
            MessageType::DuelStart => "DuelStart",
            MessageType::DuelEnd => "DuelEnd",
            MessageType::Replay => "Replay",
            MessageType::TimeLimit => "TimeLimit",
            MessageType::Chat => "Chat",
            MessageType::HsPlayerEnter => "HsPlayerEnter",
            MessageType::HsPlayerChange => "HsPlayerChange",
            MessageType::HsWatchChange => "HsWatchChange",
            MessageType::FieldFinish => "FieldFinish",
        }
    }
}

} // verus!
