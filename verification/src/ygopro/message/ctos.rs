//! Message types and structures sent from client to server.
use vstd::prelude::*;

use crate::ygopro::bytes::{
    lemma_u16s_greedy_roundtrip, le_u16, le_u16s, le_u32, le_u32s, lemma_u16_roundtrip,
    lemma_u16s_roundtrip, lemma_u32_roundtrip, lemma_u32s_roundtrip, lemma_u8_roundtrip,
    push_bytes, push_u16, push_u16_array20, push_u16s, push_u32, push_u32s, push_u8, read_u16,
    read_u16_array20, read_u16s_greedy, read_u32, read_u32s_greedy, read_u8, take_u16, take_u16s,
    take_u16s_greedy, take_u32, take_u32s_greedy, take_u8,
};
use crate::ygopro::constants::Netplayer;
use crate::ygopro::message::{HostInfo, HostInfoView};
use crate::ygopro::message::{MappedStruct, Struct};

verus! {

/// Message types sent from client to server.
#[derive(Copy, Clone, Debug, PartialEq, Eq, Structural, Hash)]
pub enum MessageType {
    Response,
    UpdateDeck,
    HandResult,
    TpResult,
    PlayerInfo,
    CreateGame,
    JoinGame,
    LeaveGame,
    Surrender,
    TimeConfirm,
    Chat,
    HsToDuelist,
    HsToOBServer,
    HsReady,
    HsNotReady,
    HsKick,
    HsStart,
    RequestField,
}

impl MessageType {
    /// The number that stands for this value on the wire.
    pub open spec fn spec_value(self) -> u8 {
        match self {
            MessageType::Response => 1,
            MessageType::UpdateDeck => 2,
            MessageType::HandResult => 3,
            MessageType::TpResult => 4,
            MessageType::PlayerInfo => 16,
            MessageType::CreateGame => 17,
            MessageType::JoinGame => 18,
            MessageType::LeaveGame => 19,
            MessageType::Surrender => 20,
            MessageType::TimeConfirm => 21,
            MessageType::Chat => 22,
            MessageType::HsToDuelist => 32,
            MessageType::HsToOBServer => 33,
            MessageType::HsReady => 34,
            MessageType::HsNotReady => 35,
            MessageType::HsKick => 36,
            MessageType::HsStart => 37,
            MessageType::RequestField => 48,
        }
    }

    /// The value that a wire number stands for, if any.
    #[verifier::opaque]
    pub open spec fn spec_try_from(v: u8) -> Option<MessageType> {
        if v == 1 { Some(MessageType::Response) } else if v == 2 { Some(MessageType::UpdateDeck) } else
        if v == 3 { Some(MessageType::HandResult) } else if v == 4 { Some(MessageType::TpResult) } else
        if v == 16 { Some(MessageType::PlayerInfo) } else if v == 17 { Some(MessageType::CreateGame) } else
        if v == 18 { Some(MessageType::JoinGame) } else if v == 19 { Some(MessageType::LeaveGame) } else
        if v == 20 { Some(MessageType::Surrender) } else if v == 21 { Some(MessageType::TimeConfirm) } else
        if v == 22 { Some(MessageType::Chat) } else if v == 32 { Some(MessageType::HsToDuelist) } else
        if v == 33 { Some(MessageType::HsToOBServer) } else if v == 34 { Some(MessageType::HsReady) } else
        if v == 35 { Some(MessageType::HsNotReady) } else if v == 36 { Some(MessageType::HsKick) } else
        if v == 37 { Some(MessageType::HsStart) } else if v == 48 { Some(MessageType::RequestField) } else
        { None }
    }

    pub fn into_u8(self) -> (r: u8)
        ensures
            r == self.spec_value(),
    {
        match self {
            MessageType::Response => 1,
            MessageType::UpdateDeck => 2,
            MessageType::HandResult => 3,
            MessageType::TpResult => 4,
            MessageType::PlayerInfo => 16,
            MessageType::CreateGame => 17,
            MessageType::JoinGame => 18,
            MessageType::LeaveGame => 19,
            MessageType::Surrender => 20,
            MessageType::TimeConfirm => 21,
            MessageType::Chat => 22,
            MessageType::HsToDuelist => 32,
            MessageType::HsToOBServer => 33,
            MessageType::HsReady => 34,
            MessageType::HsNotReady => 35,
            MessageType::HsKick => 36,
            MessageType::HsStart => 37,
            MessageType::RequestField => 48,
        }
    }

    pub fn try_from_u8(v: u8) -> (r: Option<MessageType>)
        ensures
            r == Self::spec_try_from(v),
    {
        proof { reveal(MessageType::spec_try_from); }
        if v == 1 { return Some(MessageType::Response); }
        if v == 2 { return Some(MessageType::UpdateDeck); }
        if v == 3 { return Some(MessageType::HandResult); }
        if v == 4 { return Some(MessageType::TpResult); }
        if v == 16 { return Some(MessageType::PlayerInfo); }
        if v == 17 { return Some(MessageType::CreateGame); }
        if v == 18 { return Some(MessageType::JoinGame); }
        if v == 19 { return Some(MessageType::LeaveGame); }
        if v == 20 { return Some(MessageType::Surrender); }
        if v == 21 { return Some(MessageType::TimeConfirm); }
        if v == 22 { return Some(MessageType::Chat); }
        if v == 32 { return Some(MessageType::HsToDuelist); }
        if v == 33 { return Some(MessageType::HsToOBServer); }
        if v == 34 { return Some(MessageType::HsReady); }
        if v == 35 { return Some(MessageType::HsNotReady); }
        if v == 36 { return Some(MessageType::HsKick); }
        if v == 37 { return Some(MessageType::HsStart); }
        if v == 48 { return Some(MessageType::RequestField); }
        None
    }

    /// Every value survives the trip through its number, and every number
    /// that stands for a value is that value's number.
    pub proof fn lemma_value_roundtrip(self, v: u8)
        ensures
            Self::spec_try_from(self.spec_value()) == Some(self),
            Self::spec_try_from(v) matches Some(x) ==> x.spec_value() == v,
    {
        reveal(MessageType::spec_try_from);
    }
}

/// A deck sent before a duel: counts of main and side cards, then the card codes.
#[derive(Clone, Debug)]
pub struct UpdateDeck {
    pub mainc: u32,
    pub sidec: u32,
    pub deckbuf: Vec<u32>,
}

/// The model of a [`UpdateDeck`]: arrays and vectors as sequences.
pub struct UpdateDeckView {
    pub mainc: u32,
    pub sidec: u32,
    pub deckbuf: Seq<u32>,
}

impl View for UpdateDeck {
    type V = UpdateDeckView;

    open spec fn view(&self) -> UpdateDeckView {
        UpdateDeckView { mainc: self.mainc, sidec: self.sidec, deckbuf: self.deckbuf@ }
    }
}

impl Struct for UpdateDeck {
    open spec fn spec_wf(v: UpdateDeckView) -> bool {
        v.deckbuf.len() <= 90
    }

    open spec fn spec_fixed() -> bool {
        false
    }

    open spec fn spec_serialize(v: UpdateDeckView) -> Seq<u8> {
        le_u32(v.mainc) + (le_u32(v.sidec) + (le_u32s(v.deckbuf)))
    }

    open spec fn spec_take(s: Seq<u8>) -> Option<(UpdateDeckView, Seq<u8>)> {
        match take_u32(s) { None => None, Some((mainc, s)) => 
        match take_u32(s) { None => None, Some((sidec, s)) => 
        { let (deckbuf, s) = take_u32s_greedy(s, 90); 
        Some((UpdateDeckView { mainc, sidec, deckbuf }, s))
        } } }
    }

    fn serialize(&self) -> (r: Vec<u8>) {
        let mut out: Vec<u8> = Vec::new();
        push_u32(&mut out, self.mainc);
        push_u32(&mut out, self.sidec);
        push_u32s(&mut out, self.deckbuf.as_slice());
        assert(out@ =~= Self::spec_serialize(self@));
        out
    }

    fn take(data: &[u8], pos: usize) -> (r: Option<(UpdateDeck, usize)>) {
        let p = pos;
        let (mainc, p) = match read_u32(data, p) { None => return None, Some(x) => x };
        let (sidec, p) = match read_u32(data, p) { None => return None, Some(x) => x };
        let (deckbuf, p) = read_u32s_greedy(data, p, 90);
        Some((UpdateDeck { mainc, sidec, deckbuf }, p))
    }

    proof fn lemma_roundtrip(v: UpdateDeckView, rest: Seq<u8>) {
        let t2 = le_u32s(v.deckbuf);
        let t1 = le_u32(v.sidec) + t2;
        let t0 = le_u32(v.mainc) + t1;
        assert(Self::spec_serialize(v) == t0);
        assert(t0 + rest =~= le_u32(v.mainc) + (t1 + rest));
        lemma_u32_roundtrip(v.mainc, t1 + rest);
        assert(t1 + rest =~= le_u32(v.sidec) + (t2 + rest));
        lemma_u32_roundtrip(v.sidec, t2 + rest);
        assert(t2 + rest =~= t2);
        lemma_u32s_roundtrip(v.deckbuf, 90);
    }
}

/// The body of `UpdateDeck` is laid out as the protocol has it, field by
/// field: mainc, sidec, deckbuf.
pub proof fn law_update_deck_layout(v: UpdateDeckView)
    requires
        UpdateDeck::spec_wf(v),
    ensures
        UpdateDeck::spec_serialize(v).subrange(0, 4) == le_u32(v.mainc),
        UpdateDeck::spec_serialize(v).subrange(4, 8) == le_u32(v.sidec),
        UpdateDeck::spec_serialize(v).skip(8) == le_u32s(v.deckbuf),
{
    let b = UpdateDeck::spec_serialize(v);
    assert(b.subrange(0, 4) =~= le_u32(v.mainc));
    assert(b.subrange(4, 8) =~= le_u32(v.sidec));
    assert(b.skip(8) =~= le_u32s(v.deckbuf));
}

impl MappedStruct for UpdateDeck {
    open spec fn spec_message() -> crate::ygopro::message::MessageType {
        crate::ygopro::message::MessageType::CTOS(self::MessageType::UpdateDeck)
    }

    fn message() -> (r: crate::ygopro::message::MessageType) {
        crate::ygopro::message::MessageType::CTOS(self::MessageType::UpdateDeck)
    }
}

/// The hand chosen in rock-paper-scissors.
#[derive(Clone, Debug)]
pub struct HandResult {
    pub res: u8,
}

impl View for HandResult {
    type V = HandResult;

    open spec fn view(&self) -> HandResult {
        *self
    }
}

impl Struct for HandResult {
    open spec fn spec_wf(v: HandResult) -> bool {
        true
    }

    open spec fn spec_fixed() -> bool {
        true
    }

    open spec fn spec_serialize(v: HandResult) -> Seq<u8> {
        seq![v.res]
    }

    open spec fn spec_take(s: Seq<u8>) -> Option<(HandResult, Seq<u8>)> {
        match take_u8(s) { None => None, Some((res, s)) => 
        Some((HandResult { res }, s))
        }
    }

    fn serialize(&self) -> (r: Vec<u8>) {
        let mut out: Vec<u8> = Vec::new();
        push_u8(&mut out, self.res);
        assert(out@ =~= Self::spec_serialize(self@));
        out
    }

    fn take(data: &[u8], pos: usize) -> (r: Option<(HandResult, usize)>) {
        let p = pos;
        let (res, p) = match read_u8(data, p) { None => return None, Some(x) => x };
        Some((HandResult { res }, p))
    }

    proof fn lemma_roundtrip(v: HandResult, rest: Seq<u8>) {
        let t0 = seq![v.res];
        assert(Self::spec_serialize(v) == t0);
        lemma_u8_roundtrip(v.res, rest);
    }
}

impl MappedStruct for HandResult {
    open spec fn spec_message() -> crate::ygopro::message::MessageType {
        crate::ygopro::message::MessageType::CTOS(self::MessageType::HandResult)
    }

    fn message() -> (r: crate::ygopro::message::MessageType) {
        crate::ygopro::message::MessageType::CTOS(self::MessageType::HandResult)
    }
}

/// Whether to go first.
#[derive(Clone, Debug)]
pub struct TpResult {
    pub res: u8,
}

impl View for TpResult {
    type V = TpResult;

    open spec fn view(&self) -> TpResult {
        *self
    }
}

impl Struct for TpResult {
    open spec fn spec_wf(v: TpResult) -> bool {
        true
    }

    open spec fn spec_fixed() -> bool {
        true
    }

    open spec fn spec_serialize(v: TpResult) -> Seq<u8> {
        seq![v.res]
    }

    open spec fn spec_take(s: Seq<u8>) -> Option<(TpResult, Seq<u8>)> {
        match take_u8(s) { None => None, Some((res, s)) => 
        Some((TpResult { res }, s))
        }
    }

    fn serialize(&self) -> (r: Vec<u8>) {
        let mut out: Vec<u8> = Vec::new();
        push_u8(&mut out, self.res);
        assert(out@ =~= Self::spec_serialize(self@));
        out
    }

    fn take(data: &[u8], pos: usize) -> (r: Option<(TpResult, usize)>) {
        let p = pos;
        let (res, p) = match read_u8(data, p) { None => return None, Some(x) => x };
        Some((TpResult { res }, p))
    }

    proof fn lemma_roundtrip(v: TpResult, rest: Seq<u8>) {
        let t0 = seq![v.res];
        assert(Self::spec_serialize(v) == t0);
        lemma_u8_roundtrip(v.res, rest);
    }
}

impl MappedStruct for TpResult {
    open spec fn spec_message() -> crate::ygopro::message::MessageType {
        crate::ygopro::message::MessageType::CTOS(self::MessageType::TpResult)
    }

    fn message() -> (r: crate::ygopro::message::MessageType) {
        crate::ygopro::message::MessageType::CTOS(self::MessageType::TpResult)
    }
}

/// The name a client announces.
#[derive(Clone, Debug)]
pub struct PlayerInfo {
    pub name: [u16; 20],
}

/// The model of a [`PlayerInfo`]: arrays and vectors as sequences.
pub struct PlayerInfoView {
    pub name: Seq<u16>,
}

impl View for PlayerInfo {
    type V = PlayerInfoView;

    open spec fn view(&self) -> PlayerInfoView {
        PlayerInfoView { name: self.name@ }
    }
}

impl Struct for PlayerInfo {
    open spec fn spec_wf(v: PlayerInfoView) -> bool {
        v.name.len() == 20
    }

    open spec fn spec_fixed() -> bool {
        true
    }

    open spec fn spec_serialize(v: PlayerInfoView) -> Seq<u8> {
        le_u16s(v.name)
    }

    open spec fn spec_take(s: Seq<u8>) -> Option<(PlayerInfoView, Seq<u8>)> {
        match take_u16s(s, 20) { None => None, Some((name, s)) => 
        Some((PlayerInfoView { name }, s))
        }
    }

    fn serialize(&self) -> (r: Vec<u8>) {
        let mut out: Vec<u8> = Vec::new();
        push_u16_array20(&mut out, &self.name);
        assert(out@ =~= Self::spec_serialize(self@));
        out
    }

    fn take(data: &[u8], pos: usize) -> (r: Option<(PlayerInfo, usize)>) {
        let p = pos;
        let (name, p) = match read_u16_array20(data, p) { None => return None, Some(x) => x };
        Some((PlayerInfo { name }, p))
    }

    proof fn lemma_roundtrip(v: PlayerInfoView, rest: Seq<u8>) {
        let t0 = le_u16s(v.name);
        assert(Self::spec_serialize(v) == t0);
        lemma_u16s_roundtrip(v.name, rest);
    }
}

impl MappedStruct for PlayerInfo {
    open spec fn spec_message() -> crate::ygopro::message::MessageType {
        crate::ygopro::message::MessageType::CTOS(self::MessageType::PlayerInfo)
    }

    fn message() -> (r: crate::ygopro::message::MessageType) {
        crate::ygopro::message::MessageType::CTOS(self::MessageType::PlayerInfo)
    }
}

/// A request to create a game.
#[derive(Clone, Debug)]
pub struct CreateGame {
    pub info: HostInfo,
    pub name: [u16; 20],
    pub pass: [u16; 20],
}

/// The model of a [`CreateGame`]: arrays and vectors as sequences.
pub struct CreateGameView {
    pub info: HostInfoView,
    pub name: Seq<u16>,
    pub pass: Seq<u16>,
}

impl View for CreateGame {
    type V = CreateGameView;

    open spec fn view(&self) -> CreateGameView {
        CreateGameView { info: self.info@, name: self.name@, pass: self.pass@ }
    }
}

impl Struct for CreateGame {
    open spec fn spec_wf(v: CreateGameView) -> bool {
        HostInfo::spec_wf(v.info) && v.name.len() == 20 && v.pass.len() == 20
    }

    open spec fn spec_fixed() -> bool {
        true
    }

    open spec fn spec_serialize(v: CreateGameView) -> Seq<u8> {
        HostInfo::spec_serialize(v.info) + (le_u16s(v.name) + (le_u16s(v.pass)))
    }

    open spec fn spec_take(s: Seq<u8>) -> Option<(CreateGameView, Seq<u8>)> {
        match HostInfo::spec_take(s) { None => None, Some((info, s)) => 
        match take_u16s(s, 20) { None => None, Some((name, s)) => 
        match take_u16s(s, 20) { None => None, Some((pass, s)) => 
        Some((CreateGameView { info, name, pass }, s))
        } } }
    }

    fn serialize(&self) -> (r: Vec<u8>) {
        let mut out: Vec<u8> = Vec::new();
        let piece = self.info.serialize();
        push_bytes(&mut out, piece.as_slice());
        push_u16_array20(&mut out, &self.name);
        push_u16_array20(&mut out, &self.pass);
        assert(out@ =~= Self::spec_serialize(self@));
        out
    }

    fn take(data: &[u8], pos: usize) -> (r: Option<(CreateGame, usize)>) {
        let p = pos;
        let (info, p) = match HostInfo::take(data, p) { None => return None, Some(x) => x };
        let (name, p) = match read_u16_array20(data, p) { None => return None, Some(x) => x };
        let (pass, p) = match read_u16_array20(data, p) { None => return None, Some(x) => x };
        Some((CreateGame { info, name, pass }, p))
    }

    proof fn lemma_roundtrip(v: CreateGameView, rest: Seq<u8>) {
        let t2 = le_u16s(v.pass);
        let t1 = le_u16s(v.name) + t2;
        let t0 = HostInfo::spec_serialize(v.info) + t1;
        assert(Self::spec_serialize(v) == t0);
        assert(t0 + rest =~= HostInfo::spec_serialize(v.info) + (t1 + rest));
        HostInfo::lemma_roundtrip(v.info, t1 + rest);
        assert(t1 + rest =~= le_u16s(v.name) + (t2 + rest));
        lemma_u16s_roundtrip(v.name, t2 + rest);
        lemma_u16s_roundtrip(v.pass, rest);
    }
}

/// The body of `CreateGame` is laid out as the protocol has it: the room's
/// configuration, then its name, then its password.
pub proof fn law_create_game_layout(v: CreateGameView)
    requires
        CreateGame::spec_wf(v),
    ensures
        CreateGame::spec_serialize(v).len() == 100,
        CreateGame::spec_serialize(v).subrange(0, 20) == HostInfo::spec_serialize(v.info),
        CreateGame::spec_serialize(v).subrange(20, 60) == le_u16s(v.name),
        CreateGame::spec_serialize(v).subrange(60, 100) == le_u16s(v.pass),
{
    crate::ygopro::message::mapped_struct::law_host_info_layout(v.info);
    let b = CreateGame::spec_serialize(v);
    assert(b.subrange(0, 20) =~= HostInfo::spec_serialize(v.info));
    assert(b.subrange(20, 60) =~= le_u16s(v.name));
    assert(b.subrange(60, 100) =~= le_u16s(v.pass));
}

impl MappedStruct for CreateGame {
    open spec fn spec_message() -> crate::ygopro::message::MessageType {
        crate::ygopro::message::MessageType::CTOS(self::MessageType::CreateGame)
    }

    fn message() -> (r: crate::ygopro::message::MessageType) {
        crate::ygopro::message::MessageType::CTOS(self::MessageType::CreateGame)
    }
}

/// A request to join the room named by `pass`.
#[derive(Clone, Debug)]
pub struct JoinGame {
    pub version: u16,
    pub align: u16,
    pub gameid: u32,
    pub pass: [u16; 20],
}

/// The model of a [`JoinGame`]: arrays and vectors as sequences.
pub struct JoinGameView {
    pub version: u16,
    pub align: u16,
    pub gameid: u32,
    pub pass: Seq<u16>,
}

impl View for JoinGame {
    type V = JoinGameView;

    open spec fn view(&self) -> JoinGameView {
        JoinGameView { version: self.version, align: self.align, gameid: self.gameid, pass: self.pass@ }
    }
}

impl Struct for JoinGame {
    open spec fn spec_wf(v: JoinGameView) -> bool {
        v.pass.len() == 20
    }

    open spec fn spec_fixed() -> bool {
        true
    }

    open spec fn spec_serialize(v: JoinGameView) -> Seq<u8> {
        le_u16(v.version) + (le_u16(v.align) + (le_u32(v.gameid) + (le_u16s(v.pass))))
    }

    open spec fn spec_take(s: Seq<u8>) -> Option<(JoinGameView, Seq<u8>)> {
        match take_u16(s) { None => None, Some((version, s)) => 
        match take_u16(s) { None => None, Some((align, s)) => 
        match take_u32(s) { None => None, Some((gameid, s)) => 
        match take_u16s(s, 20) { None => None, Some((pass, s)) => 
        Some((JoinGameView { version, align, gameid, pass }, s))
        } } } }
    }

    fn serialize(&self) -> (r: Vec<u8>) {
        let mut out: Vec<u8> = Vec::new();
        push_u16(&mut out, self.version);
        push_u16(&mut out, self.align);
        push_u32(&mut out, self.gameid);
        push_u16_array20(&mut out, &self.pass);
        assert(out@ =~= Self::spec_serialize(self@));
        out
    }

    fn take(data: &[u8], pos: usize) -> (r: Option<(JoinGame, usize)>) {
        let p = pos;
        let (version, p) = match read_u16(data, p) { None => return None, Some(x) => x };
        let (align, p) = match read_u16(data, p) { None => return None, Some(x) => x };
        let (gameid, p) = match read_u32(data, p) { None => return None, Some(x) => x };
        let (pass, p) = match read_u16_array20(data, p) { None => return None, Some(x) => x };
        Some((JoinGame { version, align, gameid, pass }, p))
    }

    proof fn lemma_roundtrip(v: JoinGameView, rest: Seq<u8>) {
        let t3 = le_u16s(v.pass);
        let t2 = le_u32(v.gameid) + t3;
        let t1 = le_u16(v.align) + t2;
        let t0 = le_u16(v.version) + t1;
        assert(Self::spec_serialize(v) == t0);
        assert(t0 + rest =~= le_u16(v.version) + (t1 + rest));
        lemma_u16_roundtrip(v.version, t1 + rest);
        assert(t1 + rest =~= le_u16(v.align) + (t2 + rest));
        lemma_u16_roundtrip(v.align, t2 + rest);
        assert(t2 + rest =~= le_u32(v.gameid) + (t3 + rest));
        lemma_u32_roundtrip(v.gameid, t3 + rest);
        lemma_u16s_roundtrip(v.pass, rest);
    }
}

/// A request to join a game is laid out as the protocol has it: the client's
/// version in its first two bytes, then the alignment, then the game's id in
/// four bytes, then the password in twenty code units, each little-endian.
pub proof fn law_join_game_layout(v: JoinGameView)
    requires
        v.pass.len() == 20,
    ensures
        JoinGame::spec_serialize(v).len() == 48,
        JoinGame::spec_serialize(v)[0] + 256 * JoinGame::spec_serialize(v)[1] == v.version,
        JoinGame::spec_serialize(v)[2] + 256 * JoinGame::spec_serialize(v)[3] == v.align,
        JoinGame::spec_serialize(v)[4] + 256 * JoinGame::spec_serialize(v)[5]
            + 65536 * JoinGame::spec_serialize(v)[6] + 16777216 * JoinGame::spec_serialize(v)[7] == v.gameid,
        forall|i: int| 0 <= i < 20 ==>
            JoinGame::spec_serialize(v)[8 + 2 * i] + 256 * JoinGame::spec_serialize(v)[9 + 2 * i] == #[trigger] v.pass[i],
{
    let b = JoinGame::spec_serialize(v);
    let p = le_u16s(v.pass);
    assert(b =~= le_u16(v.version) + le_u16(v.align) + le_u32(v.gameid) + p);
    assert forall|i: int| 0 <= i < 20 implies b[8 + 2 * i] + 256 * b[9 + 2 * i] == #[trigger] v.pass[i] by {
        assert(b[8 + 2 * i] == p[2 * i]);
        assert(b[9 + 2 * i] == p[2 * i + 1]);
        assert((2 * i) / 2 == i);
        assert((2 * i + 1) / 2 == i);
        assert((2 * i) % 2 == 0);
        assert((2 * i + 1) % 2 == 1);
    }
    assert(v.gameid == v.gameid % 256 + 256 * ((v.gameid / 256) % 256) + 65536 * ((v.gameid / 65536) % 256) + 16777216 * (v.gameid / 16777216)) by (nonlinear_arith);
}

impl MappedStruct for JoinGame {
    open spec fn spec_message() -> crate::ygopro::message::MessageType {
        crate::ygopro::message::MessageType::CTOS(self::MessageType::JoinGame)
    }

    fn message() -> (r: crate::ygopro::message::MessageType) {
        crate::ygopro::message::MessageType::CTOS(self::MessageType::JoinGame)
    }
}

/// Leave the room.
#[derive(Clone, Debug)]
pub struct LeaveGame;

impl View for LeaveGame {
    type V = LeaveGame;

    open spec fn view(&self) -> LeaveGame {
        *self
    }
}

impl Struct for LeaveGame {
    open spec fn spec_wf(v: LeaveGame) -> bool {
        true
    }

    open spec fn spec_fixed() -> bool {
        true
    }

    open spec fn spec_serialize(v: LeaveGame) -> Seq<u8> {
        Seq::<u8>::empty()
    }

    open spec fn spec_take(s: Seq<u8>) -> Option<(LeaveGame, Seq<u8>)> {
        Some((LeaveGame, s))
    }

    fn serialize(&self) -> (r: Vec<u8>) {
        let mut out: Vec<u8> = Vec::new();
        assert(out@ =~= Self::spec_serialize(self@));
        out
    }

    fn take(data: &[u8], pos: usize) -> (r: Option<(LeaveGame, usize)>) {
        let p = pos;
        Some((LeaveGame, p))
    }

    proof fn lemma_roundtrip(v: LeaveGame, rest: Seq<u8>) {
    }
}

impl MappedStruct for LeaveGame {
    open spec fn spec_message() -> crate::ygopro::message::MessageType {
        crate::ygopro::message::MessageType::CTOS(self::MessageType::LeaveGame)
    }

    fn message() -> (r: crate::ygopro::message::MessageType) {
        crate::ygopro::message::MessageType::CTOS(self::MessageType::LeaveGame)
    }
}

/// Surrender the duel.
#[derive(Clone, Debug)]
pub struct Surrender;

impl View for Surrender {
    type V = Surrender;

    open spec fn view(&self) -> Surrender {
        *self
    }
}

impl Struct for Surrender {
    open spec fn spec_wf(v: Surrender) -> bool {
        true
    }

    open spec fn spec_fixed() -> bool {
        true
    }

    open spec fn spec_serialize(v: Surrender) -> Seq<u8> {
        Seq::<u8>::empty()
    }

    open spec fn spec_take(s: Seq<u8>) -> Option<(Surrender, Seq<u8>)> {
        Some((Surrender, s))
    }

    fn serialize(&self) -> (r: Vec<u8>) {
        let mut out: Vec<u8> = Vec::new();
        assert(out@ =~= Self::spec_serialize(self@));
        out
    }

    fn take(data: &[u8], pos: usize) -> (r: Option<(Surrender, usize)>) {
        let p = pos;
        Some((Surrender, p))
    }

    proof fn lemma_roundtrip(v: Surrender, rest: Seq<u8>) {
    }
}

impl MappedStruct for Surrender {
    open spec fn spec_message() -> crate::ygopro::message::MessageType {
        crate::ygopro::message::MessageType::CTOS(self::MessageType::Surrender)
    }

    fn message() -> (r: crate::ygopro::message::MessageType) {
        crate::ygopro::message::MessageType::CTOS(self::MessageType::Surrender)
    }
}

/// Answer to a time limit: the heartbeat.
#[derive(Clone, Debug)]
pub struct TimeConfirm;

impl View for TimeConfirm {
    type V = TimeConfirm;

    open spec fn view(&self) -> TimeConfirm {
        *self
    }
}

impl Struct for TimeConfirm {
    open spec fn spec_wf(v: TimeConfirm) -> bool {
        true
    }

    open spec fn spec_fixed() -> bool {
        true
    }

    open spec fn spec_serialize(v: TimeConfirm) -> Seq<u8> {
        Seq::<u8>::empty()
    }

    open spec fn spec_take(s: Seq<u8>) -> Option<(TimeConfirm, Seq<u8>)> {
        Some((TimeConfirm, s))
    }

    fn serialize(&self) -> (r: Vec<u8>) {
        let mut out: Vec<u8> = Vec::new();
        assert(out@ =~= Self::spec_serialize(self@));
        out
    }

    fn take(data: &[u8], pos: usize) -> (r: Option<(TimeConfirm, usize)>) {
        let p = pos;
        Some((TimeConfirm, p))
    }

    proof fn lemma_roundtrip(v: TimeConfirm, rest: Seq<u8>) {
    }
}

impl MappedStruct for TimeConfirm {
    open spec fn spec_message() -> crate::ygopro::message::MessageType {
        crate::ygopro::message::MessageType::CTOS(self::MessageType::TimeConfirm)
    }

    fn message() -> (r: crate::ygopro::message::MessageType) {
        crate::ygopro::message::MessageType::CTOS(self::MessageType::TimeConfirm)
    }
}

/// A chat line, in UTF-16.
#[derive(Clone, Debug)]
pub struct Chat {
    pub msg: Vec<u16>,
}

/// The model of a [`Chat`]: arrays and vectors as sequences.
pub struct ChatView {
    pub msg: Seq<u16>,
}

impl View for Chat {
    type V = ChatView;

    open spec fn view(&self) -> ChatView {
        ChatView { msg: self.msg@ }
    }
}

impl Struct for Chat {
    open spec fn spec_wf(v: ChatView) -> bool {
        v.msg.len() <= 255
    }

    open spec fn spec_fixed() -> bool {
        false
    }

    open spec fn spec_serialize(v: ChatView) -> Seq<u8> {
        le_u16s(v.msg)
    }

    open spec fn spec_take(s: Seq<u8>) -> Option<(ChatView, Seq<u8>)> {
        { let (msg, s) = take_u16s_greedy(s, 255); 
        Some((ChatView { msg }, s))
        }
    }

    fn serialize(&self) -> (r: Vec<u8>) {
        let mut out: Vec<u8> = Vec::new();
        push_u16s(&mut out, self.msg.as_slice());
        assert(out@ =~= Self::spec_serialize(self@));
        out
    }

    fn take(data: &[u8], pos: usize) -> (r: Option<(Chat, usize)>) {
        let p = pos;
        let (msg, p) = read_u16s_greedy(data, p, 255);
        Some((Chat { msg }, p))
    }

    proof fn lemma_roundtrip(v: ChatView, rest: Seq<u8>) {
        let t0 = le_u16s(v.msg);
        assert(Self::spec_serialize(v) == t0);
        assert(t0 + rest =~= t0);
        lemma_u16s_greedy_roundtrip(v.msg, 255);
    }
}

impl MappedStruct for Chat {
    open spec fn spec_message() -> crate::ygopro::message::MessageType {
        crate::ygopro::message::MessageType::CTOS(self::MessageType::Chat)
    }

    fn message() -> (r: crate::ygopro::message::MessageType) {
        crate::ygopro::message::MessageType::CTOS(self::MessageType::Chat)
    }
}

/// Move to a duelist seat.
#[derive(Clone, Debug)]
pub struct HsToDuelist;

impl View for HsToDuelist {
    type V = HsToDuelist;

    open spec fn view(&self) -> HsToDuelist {
        *self
    }
}

impl Struct for HsToDuelist {
    open spec fn spec_wf(v: HsToDuelist) -> bool {
        true
    }

    open spec fn spec_fixed() -> bool {
        true
    }

    open spec fn spec_serialize(v: HsToDuelist) -> Seq<u8> {
        Seq::<u8>::empty()
    }

    open spec fn spec_take(s: Seq<u8>) -> Option<(HsToDuelist, Seq<u8>)> {
        Some((HsToDuelist, s))
    }

    fn serialize(&self) -> (r: Vec<u8>) {
        let mut out: Vec<u8> = Vec::new();
        assert(out@ =~= Self::spec_serialize(self@));
        out
    }

    fn take(data: &[u8], pos: usize) -> (r: Option<(HsToDuelist, usize)>) {
        let p = pos;
        Some((HsToDuelist, p))
    }

    proof fn lemma_roundtrip(v: HsToDuelist, rest: Seq<u8>) {
    }
}

impl MappedStruct for HsToDuelist {
    open spec fn spec_message() -> crate::ygopro::message::MessageType {
        crate::ygopro::message::MessageType::CTOS(self::MessageType::HsToDuelist)
    }

    fn message() -> (r: crate::ygopro::message::MessageType) {
        crate::ygopro::message::MessageType::CTOS(self::MessageType::HsToDuelist)
    }
}

/// Move to the observers.
#[derive(Clone, Debug)]
pub struct HsToOBServer;

impl View for HsToOBServer {
    type V = HsToOBServer;

    open spec fn view(&self) -> HsToOBServer {
        *self
    }
}

impl Struct for HsToOBServer {
    open spec fn spec_wf(v: HsToOBServer) -> bool {
        true
    }

    open spec fn spec_fixed() -> bool {
        true
    }

    open spec fn spec_serialize(v: HsToOBServer) -> Seq<u8> {
        Seq::<u8>::empty()
    }

    open spec fn spec_take(s: Seq<u8>) -> Option<(HsToOBServer, Seq<u8>)> {
        Some((HsToOBServer, s))
    }

    fn serialize(&self) -> (r: Vec<u8>) {
        let mut out: Vec<u8> = Vec::new();
        assert(out@ =~= Self::spec_serialize(self@));
        out
    }

    fn take(data: &[u8], pos: usize) -> (r: Option<(HsToOBServer, usize)>) {
        let p = pos;
        Some((HsToOBServer, p))
    }

    proof fn lemma_roundtrip(v: HsToOBServer, rest: Seq<u8>) {
    }
}

impl MappedStruct for HsToOBServer {
    open spec fn spec_message() -> crate::ygopro::message::MessageType {
        crate::ygopro::message::MessageType::CTOS(self::MessageType::HsToOBServer)
    }

    fn message() -> (r: crate::ygopro::message::MessageType) {
        crate::ygopro::message::MessageType::CTOS(self::MessageType::HsToOBServer)
    }
}

/// Ready to duel.
#[derive(Clone, Debug)]
pub struct HsReady;

impl View for HsReady {
    type V = HsReady;

    open spec fn view(&self) -> HsReady {
        *self
    }
}

impl Struct for HsReady {
    open spec fn spec_wf(v: HsReady) -> bool {
        true
    }

    open spec fn spec_fixed() -> bool {
        true
    }

    open spec fn spec_serialize(v: HsReady) -> Seq<u8> {
        Seq::<u8>::empty()
    }

    open spec fn spec_take(s: Seq<u8>) -> Option<(HsReady, Seq<u8>)> {
        Some((HsReady, s))
    }

    fn serialize(&self) -> (r: Vec<u8>) {
        let mut out: Vec<u8> = Vec::new();
        assert(out@ =~= Self::spec_serialize(self@));
        out
    }

    fn take(data: &[u8], pos: usize) -> (r: Option<(HsReady, usize)>) {
        let p = pos;
        Some((HsReady, p))
    }

    proof fn lemma_roundtrip(v: HsReady, rest: Seq<u8>) {
    }
}

impl MappedStruct for HsReady {
    open spec fn spec_message() -> crate::ygopro::message::MessageType {
        crate::ygopro::message::MessageType::CTOS(self::MessageType::HsReady)
    }

    fn message() -> (r: crate::ygopro::message::MessageType) {
        crate::ygopro::message::MessageType::CTOS(self::MessageType::HsReady)
    }
}

/// Not ready any more.
#[derive(Clone, Debug)]
pub struct HsNotReady;

impl View for HsNotReady {
    type V = HsNotReady;

    open spec fn view(&self) -> HsNotReady {
        *self
    }
}

impl Struct for HsNotReady {
    open spec fn spec_wf(v: HsNotReady) -> bool {
        true
    }

    open spec fn spec_fixed() -> bool {
        true
    }

    open spec fn spec_serialize(v: HsNotReady) -> Seq<u8> {
        Seq::<u8>::empty()
    }

    open spec fn spec_take(s: Seq<u8>) -> Option<(HsNotReady, Seq<u8>)> {
        Some((HsNotReady, s))
    }

    fn serialize(&self) -> (r: Vec<u8>) {
        let mut out: Vec<u8> = Vec::new();
        assert(out@ =~= Self::spec_serialize(self@));
        out
    }

    fn take(data: &[u8], pos: usize) -> (r: Option<(HsNotReady, usize)>) {
        let p = pos;
        Some((HsNotReady, p))
    }

    proof fn lemma_roundtrip(v: HsNotReady, rest: Seq<u8>) {
    }
}

impl MappedStruct for HsNotReady {
    open spec fn spec_message() -> crate::ygopro::message::MessageType {
        crate::ygopro::message::MessageType::CTOS(self::MessageType::HsNotReady)
    }

    fn message() -> (r: crate::ygopro::message::MessageType) {
        crate::ygopro::message::MessageType::CTOS(self::MessageType::HsNotReady)
    }
}

/// Kick the player at a seat.
#[derive(Clone, Debug)]
pub struct HsKick {
    pub pos: Netplayer,
}

impl View for HsKick {
    type V = HsKick;

    open spec fn view(&self) -> HsKick {
        *self
    }
}

impl Struct for HsKick {
    open spec fn spec_wf(v: HsKick) -> bool {
        true
    }

    open spec fn spec_fixed() -> bool {
        true
    }

    open spec fn spec_serialize(v: HsKick) -> Seq<u8> {
        seq![v.pos.spec_value()]
    }

    open spec fn spec_take(s: Seq<u8>) -> Option<(HsKick, Seq<u8>)> {
        match take_u8(s) { None => None, Some((pos_code, s)) => match Netplayer::spec_try_from(pos_code) { None => None, Some(pos) => 
        Some((HsKick { pos }, s))
        }}
    }

    fn serialize(&self) -> (r: Vec<u8>) {
        let mut out: Vec<u8> = Vec::new();
        push_u8(&mut out, self.pos.into_u8());
        assert(out@ =~= Self::spec_serialize(self@));
        out
    }

    fn take(data: &[u8], pos: usize) -> (r: Option<(HsKick, usize)>) {
        let p = pos;
        let (pos_code, p) = match read_u8(data, p) { None => return None, Some(x) => x };
        let pos = match Netplayer::try_from_u8(pos_code) { None => return None, Some(x) => x };
        Some((HsKick { pos }, p))
    }

    proof fn lemma_roundtrip(v: HsKick, rest: Seq<u8>) {
        let t0 = seq![v.pos.spec_value()];
        assert(Self::spec_serialize(v) == t0);
        lemma_u8_roundtrip(v.pos.spec_value(), rest);
        v.pos.lemma_value_roundtrip(0);
    }
}

impl MappedStruct for HsKick {
    open spec fn spec_message() -> crate::ygopro::message::MessageType {
        crate::ygopro::message::MessageType::CTOS(self::MessageType::HsKick)
    }

    fn message() -> (r: crate::ygopro::message::MessageType) {
        crate::ygopro::message::MessageType::CTOS(self::MessageType::HsKick)
    }
}

/// The host starts the duel.
#[derive(Clone, Debug)]
pub struct HsStart;

impl View for HsStart {
    type V = HsStart;

    open spec fn view(&self) -> HsStart {
        *self
    }
}

impl Struct for HsStart {
    open spec fn spec_wf(v: HsStart) -> bool {
        true
    }

    open spec fn spec_fixed() -> bool {
        true
    }

    open spec fn spec_serialize(v: HsStart) -> Seq<u8> {
        Seq::<u8>::empty()
    }

    open spec fn spec_take(s: Seq<u8>) -> Option<(HsStart, Seq<u8>)> {
        Some((HsStart, s))
    }

    fn serialize(&self) -> (r: Vec<u8>) {
        let mut out: Vec<u8> = Vec::new();
        assert(out@ =~= Self::spec_serialize(self@));
        out
    }

    fn take(data: &[u8], pos: usize) -> (r: Option<(HsStart, usize)>) {
        let p = pos;
        Some((HsStart, p))
    }

    proof fn lemma_roundtrip(v: HsStart, rest: Seq<u8>) {
    }
}

impl MappedStruct for HsStart {
    open spec fn spec_message() -> crate::ygopro::message::MessageType {
        crate::ygopro::message::MessageType::CTOS(self::MessageType::HsStart)
    }

    fn message() -> (r: crate::ygopro::message::MessageType) {
        crate::ygopro::message::MessageType::CTOS(self::MessageType::HsStart)
    }
}

/// Ask for the whole field, as a reconnecting client does.
#[derive(Clone, Debug)]
pub struct RequestField;

impl View for RequestField {
    type V = RequestField;

    open spec fn view(&self) -> RequestField {
        *self
    }
}

impl Struct for RequestField {
    open spec fn spec_wf(v: RequestField) -> bool {
        true
    }

    open spec fn spec_fixed() -> bool {
        true
    }

    open spec fn spec_serialize(v: RequestField) -> Seq<u8> {
        Seq::<u8>::empty()
    }

    open spec fn spec_take(s: Seq<u8>) -> Option<(RequestField, Seq<u8>)> {
        Some((RequestField, s))
    }

    fn serialize(&self) -> (r: Vec<u8>) {
        let mut out: Vec<u8> = Vec::new();
        assert(out@ =~= Self::spec_serialize(self@));
        out
    }

    fn take(data: &[u8], pos: usize) -> (r: Option<(RequestField, usize)>) {
        let p = pos;
        Some((RequestField, p))
    }

    proof fn lemma_roundtrip(v: RequestField, rest: Seq<u8>) {
    }
}

impl MappedStruct for RequestField {
    open spec fn spec_message() -> crate::ygopro::message::MessageType {
        crate::ygopro::message::MessageType::CTOS(self::MessageType::RequestField)
    }

    fn message() -> (r: crate::ygopro::message::MessageType) {
        crate::ygopro::message::MessageType::CTOS(self::MessageType::RequestField)
    }
}

/// The general message type of a client-to-server type.
pub fn generate_message_type(_type: self::MessageType) -> (r: crate::ygopro::message::MessageType)
    ensures
        r == crate::ygopro::message::MessageType::CTOS(_type),
{
    crate::ygopro::message::MessageType::CTOS(_type)
}

impl MessageType {
    /// The name of this value.
    pub open spec fn spec_name(self) -> Seq<char> {
        match self {
            MessageType::Response => "Response"@,
            MessageType::UpdateDeck => "UpdateDeck"@,
            MessageType::HandResult => "HandResult"@,
            MessageType::TpResult => "TpResult"@,
            MessageType::PlayerInfo => "PlayerInfo"@,
            MessageType::CreateGame => "CreateGame"@,
            MessageType::JoinGame => "JoinGame"@,
            MessageType::LeaveGame => "LeaveGame"@,
            MessageType::Surrender => "Surrender"@,
            MessageType::TimeConfirm => "TimeConfirm"@,
            MessageType::Chat => "Chat"@,
            MessageType::HsToDuelist => "HsToDuelist"@,
            MessageType::HsToOBServer => "HsToOBServer"@,
            MessageType::HsReady => "HsReady"@,
            MessageType::HsNotReady => "HsNotReady"@,
            MessageType::HsKick => "HsKick"@,
            MessageType::HsStart => "HsStart"@,
            MessageType::RequestField => "RequestField"@,
        }
    }

    /// The name of this value.
    pub fn name(self) -> (r: &'static str)
        ensures
            r@ == self.spec_name(),
    {
        match self {
            MessageType::Response => "Response",
            MessageType::UpdateDeck => "UpdateDeck",
            MessageType::HandResult => "HandResult",
            MessageType::TpResult => "TpResult",
            MessageType::PlayerInfo => "PlayerInfo",
            MessageType::CreateGame => "CreateGame",
            MessageType::JoinGame => "JoinGame",
            MessageType::LeaveGame => "LeaveGame",
            MessageType::Surrender => "Surrender",
            MessageType::TimeConfirm => "TimeConfirm",
            MessageType::Chat => "Chat",
            MessageType::HsToDuelist => "HsToDuelist",
            MessageType::HsToOBServer => "HsToOBServer",
            MessageType::HsReady => "HsReady",
            MessageType::HsNotReady => "HsNotReady",
            MessageType::HsKick => "HsKick",
            MessageType::HsStart => "HsStart",
            MessageType::RequestField => "RequestField",
        }
    }
}

} // verus!
