//! Game messages: the kinds that the duel engine emits inside a server-to-client
//! game message, and the structures of those that srvpru looks into.
use vstd::prelude::*;

use crate::ygopro::bytes::{
    i8_byte, le_i32, le_u32, lemma_i32_roundtrip, lemma_i8_roundtrip, lemma_u32_roundtrip,
    lemma_u8_roundtrip, push_bytes, push_i32, push_i8, push_u32, push_u8, read_i32, read_i8,
    read_u32, read_u8, take_i32, take_i8, take_u32, take_u8,
};
use crate::ygopro::constants::{Location, Netplayer, Position};
use crate::ygopro::message::{Empty, MappedStruct, Struct};

verus! {

/// Kinds of game messages.
pub type MessageType = crate::ygopro::constants::GameMessage;

/// A deck was shuffled.
#[derive(Clone, Debug)]
pub struct ShuffleDeck {
    pub player: Netplayer,
}

impl View for ShuffleDeck {
    type V = ShuffleDeck;

    open spec fn view(&self) -> ShuffleDeck {
        *self
    }
}

impl Struct for ShuffleDeck {
    open spec fn spec_wf(v: ShuffleDeck) -> bool {
        true
    }

    open spec fn spec_fixed() -> bool {
        true
    }

    open spec fn spec_serialize(v: ShuffleDeck) -> Seq<u8> {
        seq![v.player.spec_value()]
    }

    open spec fn spec_take(s: Seq<u8>) -> Option<(ShuffleDeck, Seq<u8>)> {
        match take_u8(s) { None => None, Some((player_code, s)) => match Netplayer::spec_try_from(player_code) { None => None, Some(player) => 
        Some((ShuffleDeck { player }, s))
        }}
    }

    fn serialize(&self) -> (r: Vec<u8>) {
        let mut out: Vec<u8> = Vec::new();
        push_u8(&mut out, self.player.into_u8());
        assert(out@ =~= Self::spec_serialize(self@));
        out
    }

    fn take(data: &[u8], pos: usize) -> (r: Option<(ShuffleDeck, usize)>) {
        let p = pos;
        let (player_code, p) = match read_u8(data, p) { None => return None, Some(x) => x };
        let player = match Netplayer::try_from_u8(player_code) { None => return None, Some(x) => x };
        Some((ShuffleDeck { player }, p))
    }

    proof fn lemma_roundtrip(v: ShuffleDeck, rest: Seq<u8>) {
        let t0 = seq![v.player.spec_value()];
        assert(Self::spec_serialize(v) == t0);
        lemma_u8_roundtrip(v.player.spec_value(), rest);
        v.player.lemma_value_roundtrip(0);
    }
}

impl MappedStruct for ShuffleDeck {
    open spec fn spec_message() -> crate::ygopro::message::MessageType {
        crate::ygopro::message::MessageType::GM(crate::ygopro::constants::GameMessage::ShuffleDeck)
    }

    fn message() -> (r: crate::ygopro::message::MessageType) {
        crate::ygopro::message::MessageType::GM(crate::ygopro::constants::GameMessage::ShuffleDeck)
    }
}

/// A hint to a player.
#[derive(Clone, Debug)]
pub struct Hint {
    pub _type: crate::ygopro::constants::Hint,
    pub player: Netplayer,
    pub data: i32,
}

impl View for Hint {
    type V = Hint;

    open spec fn view(&self) -> Hint {
        *self
    }
}

impl Struct for Hint {
    open spec fn spec_wf(v: Hint) -> bool {
        true
    }

    open spec fn spec_fixed() -> bool {
        true
    }

    open spec fn spec_serialize(v: Hint) -> Seq<u8> {
        seq![v._type.spec_value()] + (seq![v.player.spec_value()] + (le_i32(v.data)))
    }

    open spec fn spec_take(s: Seq<u8>) -> Option<(Hint, Seq<u8>)> {
        match take_u8(s) { None => None, Some((_type_code, s)) => match crate::ygopro::constants::Hint::spec_try_from(_type_code) { None => None, Some(_type) => 
        match take_u8(s) { None => None, Some((player_code, s)) => match Netplayer::spec_try_from(player_code) { None => None, Some(player) => 
        match take_i32(s) { None => None, Some((data, s)) => 
        Some((Hint { _type, player, data }, s))
        }} }} }
    }

    fn serialize(&self) -> (r: Vec<u8>) {
        let mut out: Vec<u8> = Vec::new();
        push_u8(&mut out, self._type.into_u8());
        push_u8(&mut out, self.player.into_u8());
        push_i32(&mut out, self.data);
        assert(out@ =~= Self::spec_serialize(self@));
        out
    }

    fn take(data: &[u8], pos: usize) -> (r: Option<(Hint, usize)>) {
        let p = pos;
        let (_type_code, p) = match read_u8(data, p) { None => return None, Some(x) => x };
        let _type = match crate::ygopro::constants::Hint::try_from_u8(_type_code) { None => return None, Some(x) => x };
        let (player_code, p) = match read_u8(data, p) { None => return None, Some(x) => x };
        let player = match Netplayer::try_from_u8(player_code) { None => return None, Some(x) => x };
        let (data, p) = match read_i32(data, p) { None => return None, Some(x) => x };
        Some((Hint { _type, player, data }, p))
    }

    proof fn lemma_roundtrip(v: Hint, rest: Seq<u8>) {
        let t2 = le_i32(v.data);
        let t1 = seq![v.player.spec_value()] + t2;
        let t0 = seq![v._type.spec_value()] + t1;
        assert(Self::spec_serialize(v) == t0);
        assert(t0 + rest =~= seq![v._type.spec_value()] + (t1 + rest));
        lemma_u8_roundtrip(v._type.spec_value(), t1 + rest);
        v._type.lemma_value_roundtrip(0);
        assert(t1 + rest =~= seq![v.player.spec_value()] + (t2 + rest));
        lemma_u8_roundtrip(v.player.spec_value(), t2 + rest);
        v.player.lemma_value_roundtrip(0);
        lemma_i32_roundtrip(v.data, rest);
    }
}

/// The body of `Hint` is laid out as the protocol has it, field by
/// field: _type, player, data.
pub proof fn law_hint_layout(v: Hint)
    requires
        Hint::spec_wf(v),
    ensures
        Hint::spec_serialize(v).len() == 6,
        Hint::spec_serialize(v).subrange(0, 1) == seq![v._type.spec_value()],
        Hint::spec_serialize(v).subrange(1, 2) == seq![v.player.spec_value()],
        Hint::spec_serialize(v).subrange(2, 6) == le_i32(v.data),
{
    let b = Hint::spec_serialize(v);
    assert(b.subrange(0, 1) =~= seq![v._type.spec_value()]);
    assert(b.subrange(1, 2) =~= seq![v.player.spec_value()]);
    assert(b.subrange(2, 6) =~= le_i32(v.data));
}

impl MappedStruct for Hint {
    open spec fn spec_message() -> crate::ygopro::message::MessageType {
        crate::ygopro::message::MessageType::GM(crate::ygopro::constants::GameMessage::Hint)
    }

    fn message() -> (r: crate::ygopro::message::MessageType) {
        crate::ygopro::message::MessageType::GM(crate::ygopro::constants::GameMessage::Hint)
    }
}

/// A duel was won.
#[derive(Clone, Debug)]
pub struct Win {
    pub winner: Netplayer,
    pub reason: u8,
}

impl View for Win {
    type V = Win;

    open spec fn view(&self) -> Win {
        *self
    }
}

impl Struct for Win {
    open spec fn spec_wf(v: Win) -> bool {
        true
    }

    open spec fn spec_fixed() -> bool {
        true
    }

    open spec fn spec_serialize(v: Win) -> Seq<u8> {
        seq![v.winner.spec_value()] + (seq![v.reason])
    }

    open spec fn spec_take(s: Seq<u8>) -> Option<(Win, Seq<u8>)> {
        match take_u8(s) { None => None, Some((winner_code, s)) => match Netplayer::spec_try_from(winner_code) { None => None, Some(winner) => 
        match take_u8(s) { None => None, Some((reason, s)) => 
        Some((Win { winner, reason }, s))
        }} }
    }

    fn serialize(&self) -> (r: Vec<u8>) {
        let mut out: Vec<u8> = Vec::new();
        push_u8(&mut out, self.winner.into_u8());
        push_u8(&mut out, self.reason);
        assert(out@ =~= Self::spec_serialize(self@));
        out
    }

    fn take(data: &[u8], pos: usize) -> (r: Option<(Win, usize)>) {
        let p = pos;
        let (winner_code, p) = match read_u8(data, p) { None => return None, Some(x) => x };
        let winner = match Netplayer::try_from_u8(winner_code) { None => return None, Some(x) => x };
        let (reason, p) = match read_u8(data, p) { None => return None, Some(x) => x };
        Some((Win { winner, reason }, p))
    }

    proof fn lemma_roundtrip(v: Win, rest: Seq<u8>) {
        let t1 = seq![v.reason];
        let t0 = seq![v.winner.spec_value()] + t1;
        assert(Self::spec_serialize(v) == t0);
        assert(t0 + rest =~= seq![v.winner.spec_value()] + (t1 + rest));
        lemma_u8_roundtrip(v.winner.spec_value(), t1 + rest);
        v.winner.lemma_value_roundtrip(0);
        lemma_u8_roundtrip(v.reason, rest);
    }
}

/// The body of `Win` is laid out as the protocol has it, field by
/// field: winner, reason.
pub proof fn law_win_layout(v: Win)
    requires
        Win::spec_wf(v),
    ensures
        Win::spec_serialize(v).len() == 2,
        Win::spec_serialize(v).subrange(0, 1) == seq![v.winner.spec_value()],
        Win::spec_serialize(v).subrange(1, 2) == seq![v.reason],
{
    let b = Win::spec_serialize(v);
    assert(b.subrange(0, 1) =~= seq![v.winner.spec_value()]);
    assert(b.subrange(1, 2) =~= seq![v.reason]);
}

impl MappedStruct for Win {
    open spec fn spec_message() -> crate::ygopro::message::MessageType {
        crate::ygopro::message::MessageType::GM(crate::ygopro::constants::GameMessage::Win)
    }

    fn message() -> (r: crate::ygopro::message::MessageType) {
        crate::ygopro::message::MessageType::GM(crate::ygopro::constants::GameMessage::Win)
    }
}

/// The duel engine starts; the low four bits of `_type` are set for the player who goes first.
#[derive(Clone, Debug)]
pub struct Start {
    pub _type: u8,
}

impl View for Start {
    type V = Start;

    open spec fn view(&self) -> Start {
        *self
    }
}

impl Struct for Start {
    open spec fn spec_wf(v: Start) -> bool {
        true
    }

    open spec fn spec_fixed() -> bool {
        true
    }

    open spec fn spec_serialize(v: Start) -> Seq<u8> {
        seq![v._type]
    }

    open spec fn spec_take(s: Seq<u8>) -> Option<(Start, Seq<u8>)> {
        match take_u8(s) { None => None, Some((_type, s)) => 
        Some((Start { _type }, s))
        }
    }

    fn serialize(&self) -> (r: Vec<u8>) {
        let mut out: Vec<u8> = Vec::new();
        push_u8(&mut out, self._type);
        assert(out@ =~= Self::spec_serialize(self@));
        out
    }

    fn take(data: &[u8], pos: usize) -> (r: Option<(Start, usize)>) {
        let p = pos;
        let (_type, p) = match read_u8(data, p) { None => return None, Some(x) => x };
        Some((Start { _type }, p))
    }

    proof fn lemma_roundtrip(v: Start, rest: Seq<u8>) {
        let t0 = seq![v._type];
        assert(Self::spec_serialize(v) == t0);
        lemma_u8_roundtrip(v._type, rest);
    }
}

impl MappedStruct for Start {
    open spec fn spec_message() -> crate::ygopro::message::MessageType {
        crate::ygopro::message::MessageType::GM(crate::ygopro::constants::GameMessage::Start)
    }

    fn message() -> (r: crate::ygopro::message::MessageType) {
        crate::ygopro::message::MessageType::GM(crate::ygopro::constants::GameMessage::Start)
    }
}

/// A new turn begins.
#[derive(Clone, Debug)]
pub struct NewTurn {
    pub player: Netplayer,
}

impl View for NewTurn {
    type V = NewTurn;

    open spec fn view(&self) -> NewTurn {
        *self
    }
}

impl Struct for NewTurn {
    open spec fn spec_wf(v: NewTurn) -> bool {
        true
    }

    open spec fn spec_fixed() -> bool {
        true
    }

    open spec fn spec_serialize(v: NewTurn) -> Seq<u8> {
        seq![v.player.spec_value()]
    }

    open spec fn spec_take(s: Seq<u8>) -> Option<(NewTurn, Seq<u8>)> {
        match take_u8(s) { None => None, Some((player_code, s)) => match Netplayer::spec_try_from(player_code) { None => None, Some(player) => 
        Some((NewTurn { player }, s))
        }}
    }

    fn serialize(&self) -> (r: Vec<u8>) {
        let mut out: Vec<u8> = Vec::new();
        push_u8(&mut out, self.player.into_u8());
        assert(out@ =~= Self::spec_serialize(self@));
        out
    }

    fn take(data: &[u8], pos: usize) -> (r: Option<(NewTurn, usize)>) {
        let p = pos;
        let (player_code, p) = match read_u8(data, p) { None => return None, Some(x) => x };
        let player = match Netplayer::try_from_u8(player_code) { None => return None, Some(x) => x };
        Some((NewTurn { player }, p))
    }

    proof fn lemma_roundtrip(v: NewTurn, rest: Seq<u8>) {
        let t0 = seq![v.player.spec_value()];
        assert(Self::spec_serialize(v) == t0);
        lemma_u8_roundtrip(v.player.spec_value(), rest);
        v.player.lemma_value_roundtrip(0);
    }
}

impl MappedStruct for NewTurn {
    open spec fn spec_message() -> crate::ygopro::message::MessageType {
        crate::ygopro::message::MessageType::GM(crate::ygopro::constants::GameMessage::NewTurn)
    }

    fn message() -> (r: crate::ygopro::message::MessageType) {
        crate::ygopro::message::MessageType::GM(crate::ygopro::constants::GameMessage::NewTurn)
    }
}

/// A card changed its position.
#[derive(Clone, Debug)]
pub struct PosChange {
    pub card: u32,
    pub controller: Netplayer,
    pub location: Location,
    pub sequence: i8,
    pub previous_position: Position,
    pub current_position: Position,
}

impl View for PosChange {
    type V = PosChange;

    open spec fn view(&self) -> PosChange {
        *self
    }
}

impl Struct for PosChange {
    open spec fn spec_wf(v: PosChange) -> bool {
        true
    }

    open spec fn spec_fixed() -> bool {
        true
    }

    open spec fn spec_serialize(v: PosChange) -> Seq<u8> {
        le_u32(v.card) + (seq![v.controller.spec_value()] + (seq![v.location.spec_value()] + (seq![i8_byte(v.sequence)] + (seq![v.previous_position.spec_value()] + (seq![v.current_position.spec_value()])))))
    }

    open spec fn spec_take(s: Seq<u8>) -> Option<(PosChange, Seq<u8>)> {
        match take_u32(s) { None => None, Some((card, s)) => 
        match take_u8(s) { None => None, Some((controller_code, s)) => match Netplayer::spec_try_from(controller_code) { None => None, Some(controller) => 
        match take_u8(s) { None => None, Some((location_code, s)) => match Location::spec_try_from(location_code) { None => None, Some(location) => 
        match take_i8(s) { None => None, Some((sequence, s)) => 
        match take_u8(s) { None => None, Some((previous_position_code, s)) => match Position::spec_try_from(previous_position_code) { None => None, Some(previous_position) => 
        match take_u8(s) { None => None, Some((current_position_code, s)) => match Position::spec_try_from(current_position_code) { None => None, Some(current_position) => 
        Some((PosChange { card, controller, location, sequence, previous_position, current_position }, s))
        } }} }} } }} }}
    }

    fn serialize(&self) -> (r: Vec<u8>) {
        let mut out: Vec<u8> = Vec::new();
        push_u32(&mut out, self.card);
        push_u8(&mut out, self.controller.into_u8());
        push_u8(&mut out, self.location.into_u8());
        push_i8(&mut out, self.sequence);
        push_u8(&mut out, self.previous_position.into_u8());
        push_u8(&mut out, self.current_position.into_u8());
        assert(out@ =~= Self::spec_serialize(self@));
        out
    }

    fn take(data: &[u8], pos: usize) -> (r: Option<(PosChange, usize)>) {
        let p = pos;
        let (card, p) = match read_u32(data, p) { None => return None, Some(x) => x };
        let (controller_code, p) = match read_u8(data, p) { None => return None, Some(x) => x };
        let controller = match Netplayer::try_from_u8(controller_code) { None => return None, Some(x) => x };
        let (location_code, p) = match read_u8(data, p) { None => return None, Some(x) => x };
        let location = match Location::try_from_u8(location_code) { None => return None, Some(x) => x };
        let (sequence, p) = match read_i8(data, p) { None => return None, Some(x) => x };
        let (previous_position_code, p) = match read_u8(data, p) { None => return None, Some(x) => x };
        let previous_position = match Position::try_from_u8(previous_position_code) { None => return None, Some(x) => x };
        let (current_position_code, p) = match read_u8(data, p) { None => return None, Some(x) => x };
        let current_position = match Position::try_from_u8(current_position_code) { None => return None, Some(x) => x };
        Some((PosChange { card, controller, location, sequence, previous_position, current_position }, p))
    }

    proof fn lemma_roundtrip(v: PosChange, rest: Seq<u8>) {
        let t5 = seq![v.current_position.spec_value()];
        let t4 = seq![v.previous_position.spec_value()] + t5;
        let t3 = seq![i8_byte(v.sequence)] + t4;
        let t2 = seq![v.location.spec_value()] + t3;
        let t1 = seq![v.controller.spec_value()] + t2;
        let t0 = le_u32(v.card) + t1;
        assert(Self::spec_serialize(v) == t0);
        assert(t0 + rest =~= le_u32(v.card) + (t1 + rest));
        lemma_u32_roundtrip(v.card, t1 + rest);
        assert(t1 + rest =~= seq![v.controller.spec_value()] + (t2 + rest));
        lemma_u8_roundtrip(v.controller.spec_value(), t2 + rest);
        v.controller.lemma_value_roundtrip(0);
        assert(t2 + rest =~= seq![v.location.spec_value()] + (t3 + rest));
        lemma_u8_roundtrip(v.location.spec_value(), t3 + rest);
        v.location.lemma_value_roundtrip(0);
        assert(t3 + rest =~= seq![i8_byte(v.sequence)] + (t4 + rest));
        lemma_i8_roundtrip(v.sequence, t4 + rest);
        assert(t4 + rest =~= seq![v.previous_position.spec_value()] + (t5 + rest));
        lemma_u8_roundtrip(v.previous_position.spec_value(), t5 + rest);
        v.previous_position.lemma_value_roundtrip(0);
        lemma_u8_roundtrip(v.current_position.spec_value(), rest);
        v.current_position.lemma_value_roundtrip(0);
    }
}

/// The body of `PosChange` is laid out as the protocol has it, field by
/// field: card, controller, location, sequence, previous_position, current_position.
pub proof fn law_pos_change_layout(v: PosChange)
    requires
        PosChange::spec_wf(v),
    ensures
        PosChange::spec_serialize(v).len() == 9,
        PosChange::spec_serialize(v).subrange(0, 4) == le_u32(v.card),
        PosChange::spec_serialize(v).subrange(4, 5) == seq![v.controller.spec_value()],
        PosChange::spec_serialize(v).subrange(5, 6) == seq![v.location.spec_value()],
        PosChange::spec_serialize(v).subrange(6, 7) == seq![i8_byte(v.sequence)],
        PosChange::spec_serialize(v).subrange(7, 8) == seq![v.previous_position.spec_value()],
        PosChange::spec_serialize(v).subrange(8, 9) == seq![v.current_position.spec_value()],
{
    let b = PosChange::spec_serialize(v);
    assert(b.subrange(0, 4) =~= le_u32(v.card));
    assert(b.subrange(4, 5) =~= seq![v.controller.spec_value()]);
    assert(b.subrange(5, 6) =~= seq![v.location.spec_value()]);
    assert(b.subrange(6, 7) =~= seq![i8_byte(v.sequence)]);
    assert(b.subrange(7, 8) =~= seq![v.previous_position.spec_value()]);
    assert(b.subrange(8, 9) =~= seq![v.current_position.spec_value()]);
}

impl MappedStruct for PosChange {
    open spec fn spec_message() -> crate::ygopro::message::MessageType {
        crate::ygopro::message::MessageType::GM(crate::ygopro::constants::GameMessage::PosChange)
    }

    fn message() -> (r: crate::ygopro::message::MessageType) {
        crate::ygopro::message::MessageType::GM(crate::ygopro::constants::GameMessage::PosChange)
    }
}

/// A monster is normal summoned.
#[derive(Clone, Debug)]
pub struct Summoning {
    pub card: u32,
    pub controller: Netplayer,
    pub location: Location,
    pub sequence: i8,
    pub position: Position,
}

impl View for Summoning {
    type V = Summoning;

    open spec fn view(&self) -> Summoning {
        *self
    }
}

impl Struct for Summoning {
    open spec fn spec_wf(v: Summoning) -> bool {
        true
    }

    open spec fn spec_fixed() -> bool {
        true
    }

    open spec fn spec_serialize(v: Summoning) -> Seq<u8> {
        le_u32(v.card) + (seq![v.controller.spec_value()] + (seq![v.location.spec_value()] + (seq![i8_byte(v.sequence)] + (seq![v.position.spec_value()]))))
    }

    open spec fn spec_take(s: Seq<u8>) -> Option<(Summoning, Seq<u8>)> {
        match take_u32(s) { None => None, Some((card, s)) => 
        match take_u8(s) { None => None, Some((controller_code, s)) => match Netplayer::spec_try_from(controller_code) { None => None, Some(controller) => 
        match take_u8(s) { None => None, Some((location_code, s)) => match Location::spec_try_from(location_code) { None => None, Some(location) => 
        match take_i8(s) { None => None, Some((sequence, s)) => 
        match take_u8(s) { None => None, Some((position_code, s)) => match Position::spec_try_from(position_code) { None => None, Some(position) => 
        Some((Summoning { card, controller, location, sequence, position }, s))
        } }} }} } }}
    }

    fn serialize(&self) -> (r: Vec<u8>) {
        let mut out: Vec<u8> = Vec::new();
        push_u32(&mut out, self.card);
        push_u8(&mut out, self.controller.into_u8());
        push_u8(&mut out, self.location.into_u8());
        push_i8(&mut out, self.sequence);
        push_u8(&mut out, self.position.into_u8());
        assert(out@ =~= Self::spec_serialize(self@));
        out
    }

    fn take(data: &[u8], pos: usize) -> (r: Option<(Summoning, usize)>) {
        let p = pos;
        let (card, p) = match read_u32(data, p) { None => return None, Some(x) => x };
        let (controller_code, p) = match read_u8(data, p) { None => return None, Some(x) => x };
        let controller = match Netplayer::try_from_u8(controller_code) { None => return None, Some(x) => x };
        let (location_code, p) = match read_u8(data, p) { None => return None, Some(x) => x };
        let location = match Location::try_from_u8(location_code) { None => return None, Some(x) => x };
        let (sequence, p) = match read_i8(data, p) { None => return None, Some(x) => x };
        let (position_code, p) = match read_u8(data, p) { None => return None, Some(x) => x };
        let position = match Position::try_from_u8(position_code) { None => return None, Some(x) => x };
        Some((Summoning { card, controller, location, sequence, position }, p))
    }

    proof fn lemma_roundtrip(v: Summoning, rest: Seq<u8>) {
        let t4 = seq![v.position.spec_value()];
        let t3 = seq![i8_byte(v.sequence)] + t4;
        let t2 = seq![v.location.spec_value()] + t3;
        let t1 = seq![v.controller.spec_value()] + t2;
        let t0 = le_u32(v.card) + t1;
        assert(Self::spec_serialize(v) == t0);
        assert(t0 + rest =~= le_u32(v.card) + (t1 + rest));
        lemma_u32_roundtrip(v.card, t1 + rest);
        assert(t1 + rest =~= seq![v.controller.spec_value()] + (t2 + rest));
        lemma_u8_roundtrip(v.controller.spec_value(), t2 + rest);
        v.controller.lemma_value_roundtrip(0);
        assert(t2 + rest =~= seq![v.location.spec_value()] + (t3 + rest));
        lemma_u8_roundtrip(v.location.spec_value(), t3 + rest);
        v.location.lemma_value_roundtrip(0);
        assert(t3 + rest =~= seq![i8_byte(v.sequence)] + (t4 + rest));
        lemma_i8_roundtrip(v.sequence, t4 + rest);
        lemma_u8_roundtrip(v.position.spec_value(), rest);
        v.position.lemma_value_roundtrip(0);
    }
}

/// The body of `Summoning` is laid out as the protocol has it, field by
/// field: card, controller, location, sequence, position.
pub proof fn law_summoning_layout(v: Summoning)
    requires
        Summoning::spec_wf(v),
    ensures
        Summoning::spec_serialize(v).len() == 8,
        Summoning::spec_serialize(v).subrange(0, 4) == le_u32(v.card),
        Summoning::spec_serialize(v).subrange(4, 5) == seq![v.controller.spec_value()],
        Summoning::spec_serialize(v).subrange(5, 6) == seq![v.location.spec_value()],
        Summoning::spec_serialize(v).subrange(6, 7) == seq![i8_byte(v.sequence)],
        Summoning::spec_serialize(v).subrange(7, 8) == seq![v.position.spec_value()],
{
    let b = Summoning::spec_serialize(v);
    assert(b.subrange(0, 4) =~= le_u32(v.card));
    assert(b.subrange(4, 5) =~= seq![v.controller.spec_value()]);
    assert(b.subrange(5, 6) =~= seq![v.location.spec_value()]);
    assert(b.subrange(6, 7) =~= seq![i8_byte(v.sequence)]);
    assert(b.subrange(7, 8) =~= seq![v.position.spec_value()]);
}

impl MappedStruct for Summoning {
    open spec fn spec_message() -> crate::ygopro::message::MessageType {
        crate::ygopro::message::MessageType::GM(crate::ygopro::constants::GameMessage::Summoning)
    }

    fn message() -> (r: crate::ygopro::message::MessageType) {
        crate::ygopro::message::MessageType::GM(crate::ygopro::constants::GameMessage::Summoning)
    }
}

/// A monster is special summoned.
#[derive(Clone, Debug)]
pub struct Spsummoning {
    pub card: u32,
    pub controller: Netplayer,
    pub location: Location,
    pub sequence: i8,
    pub position: Position,
}

impl View for Spsummoning {
    type V = Spsummoning;

    open spec fn view(&self) -> Spsummoning {
        *self
    }
}

impl Struct for Spsummoning {
    open spec fn spec_wf(v: Spsummoning) -> bool {
        true
    }

    open spec fn spec_fixed() -> bool {
        true
    }

    open spec fn spec_serialize(v: Spsummoning) -> Seq<u8> {
        le_u32(v.card) + (seq![v.controller.spec_value()] + (seq![v.location.spec_value()] + (seq![i8_byte(v.sequence)] + (seq![v.position.spec_value()]))))
    }

    open spec fn spec_take(s: Seq<u8>) -> Option<(Spsummoning, Seq<u8>)> {
        match take_u32(s) { None => None, Some((card, s)) => 
        match take_u8(s) { None => None, Some((controller_code, s)) => match Netplayer::spec_try_from(controller_code) { None => None, Some(controller) => 
        match take_u8(s) { None => None, Some((location_code, s)) => match Location::spec_try_from(location_code) { None => None, Some(location) => 
        match take_i8(s) { None => None, Some((sequence, s)) => 
        match take_u8(s) { None => None, Some((position_code, s)) => match Position::spec_try_from(position_code) { None => None, Some(position) => 
        Some((Spsummoning { card, controller, location, sequence, position }, s))
        } }} }} } }}
    }

    fn serialize(&self) -> (r: Vec<u8>) {
        let mut out: Vec<u8> = Vec::new();
        push_u32(&mut out, self.card);
        push_u8(&mut out, self.controller.into_u8());
        push_u8(&mut out, self.location.into_u8());
        push_i8(&mut out, self.sequence);
        push_u8(&mut out, self.position.into_u8());
        assert(out@ =~= Self::spec_serialize(self@));
        out
    }

    fn take(data: &[u8], pos: usize) -> (r: Option<(Spsummoning, usize)>) {
        let p = pos;
        let (card, p) = match read_u32(data, p) { None => return None, Some(x) => x };
        let (controller_code, p) = match read_u8(data, p) { None => return None, Some(x) => x };
        let controller = match Netplayer::try_from_u8(controller_code) { None => return None, Some(x) => x };
        let (location_code, p) = match read_u8(data, p) { None => return None, Some(x) => x };
        let location = match Location::try_from_u8(location_code) { None => return None, Some(x) => x };
        let (sequence, p) = match read_i8(data, p) { None => return None, Some(x) => x };
        let (position_code, p) = match read_u8(data, p) { None => return None, Some(x) => x };
        let position = match Position::try_from_u8(position_code) { None => return None, Some(x) => x };
        Some((Spsummoning { card, controller, location, sequence, position }, p))
    }

    proof fn lemma_roundtrip(v: Spsummoning, rest: Seq<u8>) {
        let t4 = seq![v.position.spec_value()];
        let t3 = seq![i8_byte(v.sequence)] + t4;
        let t2 = seq![v.location.spec_value()] + t3;
        let t1 = seq![v.controller.spec_value()] + t2;
        let t0 = le_u32(v.card) + t1;
        assert(Self::spec_serialize(v) == t0);
        assert(t0 + rest =~= le_u32(v.card) + (t1 + rest));
        lemma_u32_roundtrip(v.card, t1 + rest);
        assert(t1 + rest =~= seq![v.controller.spec_value()] + (t2 + rest));
        lemma_u8_roundtrip(v.controller.spec_value(), t2 + rest);
        v.controller.lemma_value_roundtrip(0);
        assert(t2 + rest =~= seq![v.location.spec_value()] + (t3 + rest));
        lemma_u8_roundtrip(v.location.spec_value(), t3 + rest);
        v.location.lemma_value_roundtrip(0);
        assert(t3 + rest =~= seq![i8_byte(v.sequence)] + (t4 + rest));
        lemma_i8_roundtrip(v.sequence, t4 + rest);
        lemma_u8_roundtrip(v.position.spec_value(), rest);
        v.position.lemma_value_roundtrip(0);
    }
}

/// The body of `Spsummoning` is laid out as the protocol has it, field by
/// field: card, controller, location, sequence, position.
pub proof fn law_spsummoning_layout(v: Spsummoning)
    requires
        Spsummoning::spec_wf(v),
    ensures
        Spsummoning::spec_serialize(v).len() == 8,
        Spsummoning::spec_serialize(v).subrange(0, 4) == le_u32(v.card),
        Spsummoning::spec_serialize(v).subrange(4, 5) == seq![v.controller.spec_value()],
        Spsummoning::spec_serialize(v).subrange(5, 6) == seq![v.location.spec_value()],
        Spsummoning::spec_serialize(v).subrange(6, 7) == seq![i8_byte(v.sequence)],
        Spsummoning::spec_serialize(v).subrange(7, 8) == seq![v.position.spec_value()],
{
    let b = Spsummoning::spec_serialize(v);
    assert(b.subrange(0, 4) =~= le_u32(v.card));
    assert(b.subrange(4, 5) =~= seq![v.controller.spec_value()]);
    assert(b.subrange(5, 6) =~= seq![v.location.spec_value()]);
    assert(b.subrange(6, 7) =~= seq![i8_byte(v.sequence)]);
    assert(b.subrange(7, 8) =~= seq![v.position.spec_value()]);
}

impl MappedStruct for Spsummoning {
    open spec fn spec_message() -> crate::ygopro::message::MessageType {
        crate::ygopro::message::MessageType::GM(crate::ygopro::constants::GameMessage::Spsummoning)
    }

    fn message() -> (r: crate::ygopro::message::MessageType) {
        crate::ygopro::message::MessageType::GM(crate::ygopro::constants::GameMessage::Spsummoning)
    }
}

/// An effect is chained.
#[derive(Clone, Debug)]
pub struct Chaining {
    pub card: u32,
    pub previous_controller: Netplayer,
    pub previous_location: Location,
    pub previous_sequence: i8,
    pub sub_sequence: i8,
    pub controller: Netplayer,
    pub location: Location,
    pub sequence: i8,
    pub desc: i32,
    pub target: i8,
}

impl View for Chaining {
    type V = Chaining;

    open spec fn view(&self) -> Chaining {
        *self
    }
}

impl Struct for Chaining {
    open spec fn spec_wf(v: Chaining) -> bool {
        true
    }

    open spec fn spec_fixed() -> bool {
        true
    }

    open spec fn spec_serialize(v: Chaining) -> Seq<u8> {
        le_u32(v.card) + (seq![v.previous_controller.spec_value()] + (seq![v.previous_location.spec_value()] + (seq![i8_byte(v.previous_sequence)] + (seq![i8_byte(v.sub_sequence)] + (seq![v.controller.spec_value()] + (seq![v.location.spec_value()] + (seq![i8_byte(v.sequence)] + (le_i32(v.desc) + (seq![i8_byte(v.target)])))))))))
    }

    open spec fn spec_take(s: Seq<u8>) -> Option<(Chaining, Seq<u8>)> {
        match take_u32(s) { None => None, Some((card, s)) => 
        match take_u8(s) { None => None, Some((previous_controller_code, s)) => match Netplayer::spec_try_from(previous_controller_code) { None => None, Some(previous_controller) => 
        match take_u8(s) { None => None, Some((previous_location_code, s)) => match Location::spec_try_from(previous_location_code) { None => None, Some(previous_location) => 
        match take_i8(s) { None => None, Some((previous_sequence, s)) => 
        match take_i8(s) { None => None, Some((sub_sequence, s)) => 
        match take_u8(s) { None => None, Some((controller_code, s)) => match Netplayer::spec_try_from(controller_code) { None => None, Some(controller) => 
        match take_u8(s) { None => None, Some((location_code, s)) => match Location::spec_try_from(location_code) { None => None, Some(location) => 
        match take_i8(s) { None => None, Some((sequence, s)) => 
        match take_i32(s) { None => None, Some((desc, s)) => 
        match take_i8(s) { None => None, Some((target, s)) => 
        Some((Chaining { card, previous_controller, previous_location, previous_sequence, sub_sequence, controller, location, sequence, desc, target }, s))
        } }} }} } } }} }} } } }
    }

    fn serialize(&self) -> (r: Vec<u8>) {
        let mut out: Vec<u8> = Vec::new();
        push_u32(&mut out, self.card);
        push_u8(&mut out, self.previous_controller.into_u8());
        push_u8(&mut out, self.previous_location.into_u8());
        push_i8(&mut out, self.previous_sequence);
        push_i8(&mut out, self.sub_sequence);
        push_u8(&mut out, self.controller.into_u8());
        push_u8(&mut out, self.location.into_u8());
        push_i8(&mut out, self.sequence);
        push_i32(&mut out, self.desc);
        push_i8(&mut out, self.target);
        assert(out@ =~= Self::spec_serialize(self@));
        out
    }

    fn take(data: &[u8], pos: usize) -> (r: Option<(Chaining, usize)>) {
        let p = pos;
        let (card, p) = match read_u32(data, p) { None => return None, Some(x) => x };
        let (previous_controller_code, p) = match read_u8(data, p) { None => return None, Some(x) => x };
        let previous_controller = match Netplayer::try_from_u8(previous_controller_code) { None => return None, Some(x) => x };
        let (previous_location_code, p) = match read_u8(data, p) { None => return None, Some(x) => x };
        let previous_location = match Location::try_from_u8(previous_location_code) { None => return None, Some(x) => x };
        let (previous_sequence, p) = match read_i8(data, p) { None => return None, Some(x) => x };
        let (sub_sequence, p) = match read_i8(data, p) { None => return None, Some(x) => x };
        let (controller_code, p) = match read_u8(data, p) { None => return None, Some(x) => x };
        let controller = match Netplayer::try_from_u8(controller_code) { None => return None, Some(x) => x };
        let (location_code, p) = match read_u8(data, p) { None => return None, Some(x) => x };
        let location = match Location::try_from_u8(location_code) { None => return None, Some(x) => x };
        let (sequence, p) = match read_i8(data, p) { None => return None, Some(x) => x };
        let (desc, p) = match read_i32(data, p) { None => return None, Some(x) => x };
        let (target, p) = match read_i8(data, p) { None => return None, Some(x) => x };
        Some((Chaining { card, previous_controller, previous_location, previous_sequence, sub_sequence, controller, location, sequence, desc, target }, p))
    }

    proof fn lemma_roundtrip(v: Chaining, rest: Seq<u8>) {
        let t9 = seq![i8_byte(v.target)];
        let t8 = le_i32(v.desc) + t9;
        let t7 = seq![i8_byte(v.sequence)] + t8;
        let t6 = seq![v.location.spec_value()] + t7;
        let t5 = seq![v.controller.spec_value()] + t6;
        let t4 = seq![i8_byte(v.sub_sequence)] + t5;
        let t3 = seq![i8_byte(v.previous_sequence)] + t4;
        let t2 = seq![v.previous_location.spec_value()] + t3;
        let t1 = seq![v.previous_controller.spec_value()] + t2;
        let t0 = le_u32(v.card) + t1;
        assert(Self::spec_serialize(v) == t0);
        assert(t0 + rest =~= le_u32(v.card) + (t1 + rest));
        lemma_u32_roundtrip(v.card, t1 + rest);
        assert(t1 + rest =~= seq![v.previous_controller.spec_value()] + (t2 + rest));
        lemma_u8_roundtrip(v.previous_controller.spec_value(), t2 + rest);
        v.previous_controller.lemma_value_roundtrip(0);
        assert(t2 + rest =~= seq![v.previous_location.spec_value()] + (t3 + rest));
        lemma_u8_roundtrip(v.previous_location.spec_value(), t3 + rest);
        v.previous_location.lemma_value_roundtrip(0);
        assert(t3 + rest =~= seq![i8_byte(v.previous_sequence)] + (t4 + rest));
        lemma_i8_roundtrip(v.previous_sequence, t4 + rest);
        assert(t4 + rest =~= seq![i8_byte(v.sub_sequence)] + (t5 + rest));
        lemma_i8_roundtrip(v.sub_sequence, t5 + rest);
        assert(t5 + rest =~= seq![v.controller.spec_value()] + (t6 + rest));
        lemma_u8_roundtrip(v.controller.spec_value(), t6 + rest);
        v.controller.lemma_value_roundtrip(0);
        assert(t6 + rest =~= seq![v.location.spec_value()] + (t7 + rest));
        lemma_u8_roundtrip(v.location.spec_value(), t7 + rest);
        v.location.lemma_value_roundtrip(0);
        assert(t7 + rest =~= seq![i8_byte(v.sequence)] + (t8 + rest));
        lemma_i8_roundtrip(v.sequence, t8 + rest);
        assert(t8 + rest =~= le_i32(v.desc) + (t9 + rest));
        lemma_i32_roundtrip(v.desc, t9 + rest);
        lemma_i8_roundtrip(v.target, rest);
    }
}

/// The body of `Chaining` is laid out as the protocol has it, field by
/// field: card, previous_controller, previous_location, previous_sequence, sub_sequence, controller, location, sequence, desc, target.
pub proof fn law_chaining_layout(v: Chaining)
    requires
        Chaining::spec_wf(v),
    ensures
        Chaining::spec_serialize(v).len() == 16,
        Chaining::spec_serialize(v).subrange(0, 4) == le_u32(v.card),
        Chaining::spec_serialize(v).subrange(4, 5) == seq![v.previous_controller.spec_value()],
        Chaining::spec_serialize(v).subrange(5, 6) == seq![v.previous_location.spec_value()],
        Chaining::spec_serialize(v).subrange(6, 7) == seq![i8_byte(v.previous_sequence)],
        Chaining::spec_serialize(v).subrange(7, 8) == seq![i8_byte(v.sub_sequence)],
        Chaining::spec_serialize(v).subrange(8, 9) == seq![v.controller.spec_value()],
        Chaining::spec_serialize(v).subrange(9, 10) == seq![v.location.spec_value()],
        Chaining::spec_serialize(v).subrange(10, 11) == seq![i8_byte(v.sequence)],
        Chaining::spec_serialize(v).subrange(11, 15) == le_i32(v.desc),
        Chaining::spec_serialize(v).subrange(15, 16) == seq![i8_byte(v.target)],
{
    let b = Chaining::spec_serialize(v);
    assert(b.subrange(0, 4) =~= le_u32(v.card));
    assert(b.subrange(4, 5) =~= seq![v.previous_controller.spec_value()]);
    assert(b.subrange(5, 6) =~= seq![v.previous_location.spec_value()]);
    assert(b.subrange(6, 7) =~= seq![i8_byte(v.previous_sequence)]);
    assert(b.subrange(7, 8) =~= seq![i8_byte(v.sub_sequence)]);
    assert(b.subrange(8, 9) =~= seq![v.controller.spec_value()]);
    assert(b.subrange(9, 10) =~= seq![v.location.spec_value()]);
    assert(b.subrange(10, 11) =~= seq![i8_byte(v.sequence)]);
    assert(b.subrange(11, 15) =~= le_i32(v.desc));
    assert(b.subrange(15, 16) =~= seq![i8_byte(v.target)]);
}

impl MappedStruct for Chaining {
    open spec fn spec_message() -> crate::ygopro::message::MessageType {
        crate::ygopro::message::MessageType::GM(crate::ygopro::constants::GameMessage::Chaining)
    }

    fn message() -> (r: crate::ygopro::message::MessageType) {
        crate::ygopro::message::MessageType::GM(crate::ygopro::constants::GameMessage::Chaining)
    }
}

/// A player takes damage.
#[derive(Clone, Debug)]
pub struct Damage {
    pub player: Netplayer,
    pub value: i32,
}

impl View for Damage {
    type V = Damage;

    open spec fn view(&self) -> Damage {
        *self
    }
}

impl Struct for Damage {
    open spec fn spec_wf(v: Damage) -> bool {
        true
    }

    open spec fn spec_fixed() -> bool {
        true
    }

    open spec fn spec_serialize(v: Damage) -> Seq<u8> {
        seq![v.player.spec_value()] + (le_i32(v.value))
    }

    open spec fn spec_take(s: Seq<u8>) -> Option<(Damage, Seq<u8>)> {
        match take_u8(s) { None => None, Some((player_code, s)) => match Netplayer::spec_try_from(player_code) { None => None, Some(player) => 
        match take_i32(s) { None => None, Some((value, s)) => 
        Some((Damage { player, value }, s))
        }} }
    }

    fn serialize(&self) -> (r: Vec<u8>) {
        let mut out: Vec<u8> = Vec::new();
        push_u8(&mut out, self.player.into_u8());
        push_i32(&mut out, self.value);
        assert(out@ =~= Self::spec_serialize(self@));
        out
    }

    fn take(data: &[u8], pos: usize) -> (r: Option<(Damage, usize)>) {
        let p = pos;
        let (player_code, p) = match read_u8(data, p) { None => return None, Some(x) => x };
        let player = match Netplayer::try_from_u8(player_code) { None => return None, Some(x) => x };
        let (value, p) = match read_i32(data, p) { None => return None, Some(x) => x };
        Some((Damage { player, value }, p))
    }

    proof fn lemma_roundtrip(v: Damage, rest: Seq<u8>) {
        let t1 = le_i32(v.value);
        let t0 = seq![v.player.spec_value()] + t1;
        assert(Self::spec_serialize(v) == t0);
        assert(t0 + rest =~= seq![v.player.spec_value()] + (t1 + rest));
        lemma_u8_roundtrip(v.player.spec_value(), t1 + rest);
        v.player.lemma_value_roundtrip(0);
        lemma_i32_roundtrip(v.value, rest);
    }
}

/// The body of `Damage` is laid out as the protocol has it, field by
/// field: player, value.
pub proof fn law_damage_layout(v: Damage)
    requires
        Damage::spec_wf(v),
    ensures
        Damage::spec_serialize(v).len() == 5,
        Damage::spec_serialize(v).subrange(0, 1) == seq![v.player.spec_value()],
        Damage::spec_serialize(v).subrange(1, 5) == le_i32(v.value),
{
    let b = Damage::spec_serialize(v);
    assert(b.subrange(0, 1) =~= seq![v.player.spec_value()]);
    assert(b.subrange(1, 5) =~= le_i32(v.value));
}

impl MappedStruct for Damage {
    open spec fn spec_message() -> crate::ygopro::message::MessageType {
        crate::ygopro::message::MessageType::GM(crate::ygopro::constants::GameMessage::Damage)
    }

    fn message() -> (r: crate::ygopro::message::MessageType) {
        crate::ygopro::message::MessageType::GM(crate::ygopro::constants::GameMessage::Damage)
    }
}

/// A player gains life points.
#[derive(Clone, Debug)]
pub struct Recover {
    pub player: Netplayer,
    pub value: i32,
}

impl View for Recover {
    type V = Recover;

    open spec fn view(&self) -> Recover {
        *self
    }
}

impl Struct for Recover {
    open spec fn spec_wf(v: Recover) -> bool {
        true
    }

    open spec fn spec_fixed() -> bool {
        true
    }

    open spec fn spec_serialize(v: Recover) -> Seq<u8> {
        seq![v.player.spec_value()] + (le_i32(v.value))
    }

    open spec fn spec_take(s: Seq<u8>) -> Option<(Recover, Seq<u8>)> {
        match take_u8(s) { None => None, Some((player_code, s)) => match Netplayer::spec_try_from(player_code) { None => None, Some(player) => 
        match take_i32(s) { None => None, Some((value, s)) => 
        Some((Recover { player, value }, s))
        }} }
    }

    fn serialize(&self) -> (r: Vec<u8>) {
        let mut out: Vec<u8> = Vec::new();
        push_u8(&mut out, self.player.into_u8());
        push_i32(&mut out, self.value);
        assert(out@ =~= Self::spec_serialize(self@));
        out
    }

    fn take(data: &[u8], pos: usize) -> (r: Option<(Recover, usize)>) {
        let p = pos;
        let (player_code, p) = match read_u8(data, p) { None => return None, Some(x) => x };
        let player = match Netplayer::try_from_u8(player_code) { None => return None, Some(x) => x };
        let (value, p) = match read_i32(data, p) { None => return None, Some(x) => x };
        Some((Recover { player, value }, p))
    }

    proof fn lemma_roundtrip(v: Recover, rest: Seq<u8>) {
        let t1 = le_i32(v.value);
        let t0 = seq![v.player.spec_value()] + t1;
        assert(Self::spec_serialize(v) == t0);
        assert(t0 + rest =~= seq![v.player.spec_value()] + (t1 + rest));
        lemma_u8_roundtrip(v.player.spec_value(), t1 + rest);
        v.player.lemma_value_roundtrip(0);
        lemma_i32_roundtrip(v.value, rest);
    }
}

/// The body of `Recover` is laid out as the protocol has it, field by
/// field: player, value.
pub proof fn law_recover_layout(v: Recover)
    requires
        Recover::spec_wf(v),
    ensures
        Recover::spec_serialize(v).len() == 5,
        Recover::spec_serialize(v).subrange(0, 1) == seq![v.player.spec_value()],
        Recover::spec_serialize(v).subrange(1, 5) == le_i32(v.value),
{
    let b = Recover::spec_serialize(v);
    assert(b.subrange(0, 1) =~= seq![v.player.spec_value()]);
    assert(b.subrange(1, 5) =~= le_i32(v.value));
}

impl MappedStruct for Recover {
    open spec fn spec_message() -> crate::ygopro::message::MessageType {
        crate::ygopro::message::MessageType::GM(crate::ygopro::constants::GameMessage::Recover)
    }

    fn message() -> (r: crate::ygopro::message::MessageType) {
        crate::ygopro::message::MessageType::GM(crate::ygopro::constants::GameMessage::Recover)
    }
}

/// Life points are set.
#[derive(Clone, Debug)]
pub struct Lpupdate {
    pub player: Netplayer,
    pub lp: i32,
}

impl View for Lpupdate {
    type V = Lpupdate;

    open spec fn view(&self) -> Lpupdate {
        *self
    }
}

impl Struct for Lpupdate {
    open spec fn spec_wf(v: Lpupdate) -> bool {
        true
    }

    open spec fn spec_fixed() -> bool {
        true
    }

    open spec fn spec_serialize(v: Lpupdate) -> Seq<u8> {
        seq![v.player.spec_value()] + (le_i32(v.lp))
    }

    open spec fn spec_take(s: Seq<u8>) -> Option<(Lpupdate, Seq<u8>)> {
        match take_u8(s) { None => None, Some((player_code, s)) => match Netplayer::spec_try_from(player_code) { None => None, Some(player) => 
        match take_i32(s) { None => None, Some((lp, s)) => 
        Some((Lpupdate { player, lp }, s))
        }} }
    }

    fn serialize(&self) -> (r: Vec<u8>) {
        let mut out: Vec<u8> = Vec::new();
        push_u8(&mut out, self.player.into_u8());
        push_i32(&mut out, self.lp);
        assert(out@ =~= Self::spec_serialize(self@));
        out
    }

    fn take(data: &[u8], pos: usize) -> (r: Option<(Lpupdate, usize)>) {
        let p = pos;
        let (player_code, p) = match read_u8(data, p) { None => return None, Some(x) => x };
        let player = match Netplayer::try_from_u8(player_code) { None => return None, Some(x) => x };
        let (lp, p) = match read_i32(data, p) { None => return None, Some(x) => x };
        Some((Lpupdate { player, lp }, p))
    }

    proof fn lemma_roundtrip(v: Lpupdate, rest: Seq<u8>) {
        let t1 = le_i32(v.lp);
        let t0 = seq![v.player.spec_value()] + t1;
        assert(Self::spec_serialize(v) == t0);
        assert(t0 + rest =~= seq![v.player.spec_value()] + (t1 + rest));
        lemma_u8_roundtrip(v.player.spec_value(), t1 + rest);
        v.player.lemma_value_roundtrip(0);
        lemma_i32_roundtrip(v.lp, rest);
    }
}

/// The body of `Lpupdate` is laid out as the protocol has it, field by
/// field: player, lp.
pub proof fn law_lpupdate_layout(v: Lpupdate)
    requires
        Lpupdate::spec_wf(v),
    ensures
        Lpupdate::spec_serialize(v).len() == 5,
        Lpupdate::spec_serialize(v).subrange(0, 1) == seq![v.player.spec_value()],
        Lpupdate::spec_serialize(v).subrange(1, 5) == le_i32(v.lp),
{
    let b = Lpupdate::spec_serialize(v);
    assert(b.subrange(0, 1) =~= seq![v.player.spec_value()]);
    assert(b.subrange(1, 5) =~= le_i32(v.lp));
}

impl MappedStruct for Lpupdate {
    open spec fn spec_message() -> crate::ygopro::message::MessageType {
        crate::ygopro::message::MessageType::GM(crate::ygopro::constants::GameMessage::Lpupdate)
    }

    fn message() -> (r: crate::ygopro::message::MessageType) {
        crate::ygopro::message::MessageType::GM(crate::ygopro::constants::GameMessage::Lpupdate)
    }
}

/// A player pays life points.
#[derive(Clone, Debug)]
pub struct PayLpcost {
    pub player: Netplayer,
    pub cost: i32,
}

impl View for PayLpcost {
    type V = PayLpcost;

    open spec fn view(&self) -> PayLpcost {
        *self
    }
}

impl Struct for PayLpcost {
    open spec fn spec_wf(v: PayLpcost) -> bool {
        true
    }

    open spec fn spec_fixed() -> bool {
        true
    }

    open spec fn spec_serialize(v: PayLpcost) -> Seq<u8> {
        seq![v.player.spec_value()] + (le_i32(v.cost))
    }

    open spec fn spec_take(s: Seq<u8>) -> Option<(PayLpcost, Seq<u8>)> {
        match take_u8(s) { None => None, Some((player_code, s)) => match Netplayer::spec_try_from(player_code) { None => None, Some(player) => 
        match take_i32(s) { None => None, Some((cost, s)) => 
        Some((PayLpcost { player, cost }, s))
        }} }
    }

    fn serialize(&self) -> (r: Vec<u8>) {
        let mut out: Vec<u8> = Vec::new();
        push_u8(&mut out, self.player.into_u8());
        push_i32(&mut out, self.cost);
        assert(out@ =~= Self::spec_serialize(self@));
        out
    }

    fn take(data: &[u8], pos: usize) -> (r: Option<(PayLpcost, usize)>) {
        let p = pos;
        let (player_code, p) = match read_u8(data, p) { None => return None, Some(x) => x };
        let player = match Netplayer::try_from_u8(player_code) { None => return None, Some(x) => x };
        let (cost, p) = match read_i32(data, p) { None => return None, Some(x) => x };
        Some((PayLpcost { player, cost }, p))
    }

    proof fn lemma_roundtrip(v: PayLpcost, rest: Seq<u8>) {
        let t1 = le_i32(v.cost);
        let t0 = seq![v.player.spec_value()] + t1;
        assert(Self::spec_serialize(v) == t0);
        assert(t0 + rest =~= seq![v.player.spec_value()] + (t1 + rest));
        lemma_u8_roundtrip(v.player.spec_value(), t1 + rest);
        v.player.lemma_value_roundtrip(0);
        lemma_i32_roundtrip(v.cost, rest);
    }
}

/// The body of `PayLpcost` is laid out as the protocol has it, field by
/// field: player, cost.
pub proof fn law_pay_lpcost_layout(v: PayLpcost)
    requires
        PayLpcost::spec_wf(v),
    ensures
        PayLpcost::spec_serialize(v).len() == 5,
        PayLpcost::spec_serialize(v).subrange(0, 1) == seq![v.player.spec_value()],
        PayLpcost::spec_serialize(v).subrange(1, 5) == le_i32(v.cost),
{
    let b = PayLpcost::spec_serialize(v);
    assert(b.subrange(0, 1) =~= seq![v.player.spec_value()]);
    assert(b.subrange(1, 5) =~= le_i32(v.cost));
}

impl MappedStruct for PayLpcost {
    open spec fn spec_message() -> crate::ygopro::message::MessageType {
        crate::ygopro::message::MessageType::GM(crate::ygopro::constants::GameMessage::PayLpcost)
    }

    fn message() -> (r: crate::ygopro::message::MessageType) {
        crate::ygopro::message::MessageType::GM(crate::ygopro::constants::GameMessage::PayLpcost)
    }
}

/// The body of a game message. Kinds that srvpru does not look into carry
/// an empty body; their bytes stay in the raw message.
#[derive(Clone, Debug)]
pub enum GameMessageBody {
    ShuffleDeck(ShuffleDeck),
    Hint(Hint),
    Start(Start),
    Win(Win),
    NewTurn(NewTurn),
    PosChange(PosChange),
    Summoning(Summoning),
    Spsummoning(Spsummoning),
    Chaining(Chaining),
    Damage(Damage),
    Recover(Recover),
    Empty(Empty),
}

/// A server-to-client game message: a kind byte, then the body of that kind.
#[derive(Clone, Debug)]
pub struct GameMessage {
    pub kind: MessageType,
    pub message: GameMessageBody,
}

impl View for GameMessage {
    type V = GameMessage;

    open spec fn view(&self) -> GameMessage {
        *self
    }
}

/// The kind that a body belongs to; `None` for the empty body.
pub open spec fn body_kind(b: GameMessageBody) -> Option<MessageType> {
    match b {
        GameMessageBody::ShuffleDeck(_) => Some(MessageType::ShuffleDeck),
        GameMessageBody::Hint(_) => Some(MessageType::Hint),
        GameMessageBody::Start(_) => Some(MessageType::Start),
        GameMessageBody::Win(_) => Some(MessageType::Win),
        GameMessageBody::NewTurn(_) => Some(MessageType::NewTurn),
        GameMessageBody::PosChange(_) => Some(MessageType::PosChange),
        GameMessageBody::Summoning(_) => Some(MessageType::Summoning),
        GameMessageBody::Spsummoning(_) => Some(MessageType::Spsummoning),
        GameMessageBody::Chaining(_) => Some(MessageType::Chaining),
        GameMessageBody::Damage(_) => Some(MessageType::Damage),
        GameMessageBody::Recover(_) => Some(MessageType::Recover),
        GameMessageBody::Empty(_) => None,
    }
}

/// Whether srvpru reads the body of a kind.
pub open spec fn has_body(kind: MessageType) -> bool {
    kind == MessageType::ShuffleDeck || kind == MessageType::Hint || kind == MessageType::Start || kind == MessageType::Win || kind == MessageType::NewTurn || kind == MessageType::PosChange || kind == MessageType::Summoning || kind == MessageType::Spsummoning || kind == MessageType::Chaining || kind == MessageType::Damage || kind == MessageType::Recover
}

pub open spec fn body_bytes(b: GameMessageBody) -> Seq<u8> {
    match b {
        GameMessageBody::ShuffleDeck(x) => ShuffleDeck::spec_serialize(x),
        GameMessageBody::Hint(x) => Hint::spec_serialize(x),
        GameMessageBody::Start(x) => Start::spec_serialize(x),
        GameMessageBody::Win(x) => Win::spec_serialize(x),
        GameMessageBody::NewTurn(x) => NewTurn::spec_serialize(x),
        GameMessageBody::PosChange(x) => PosChange::spec_serialize(x),
        GameMessageBody::Summoning(x) => Summoning::spec_serialize(x),
        GameMessageBody::Spsummoning(x) => Spsummoning::spec_serialize(x),
        GameMessageBody::Chaining(x) => Chaining::spec_serialize(x),
        GameMessageBody::Damage(x) => Damage::spec_serialize(x),
        GameMessageBody::Recover(x) => Recover::spec_serialize(x),
        GameMessageBody::Empty(x) => Empty::spec_serialize(x),
    }
}

/// The body of a kind at the front of `s`.
pub open spec fn take_body(kind: MessageType, s: Seq<u8>) -> Option<(GameMessageBody, Seq<u8>)> {
    match kind {
        MessageType::ShuffleDeck => match ShuffleDeck::spec_take(s) { None => None, Some((x, r)) => Some((GameMessageBody::ShuffleDeck(x), r)) },
        MessageType::Hint => match Hint::spec_take(s) { None => None, Some((x, r)) => Some((GameMessageBody::Hint(x), r)) },
        MessageType::Start => match Start::spec_take(s) { None => None, Some((x, r)) => Some((GameMessageBody::Start(x), r)) },
        MessageType::Win => match Win::spec_take(s) { None => None, Some((x, r)) => Some((GameMessageBody::Win(x), r)) },
        MessageType::NewTurn => match NewTurn::spec_take(s) { None => None, Some((x, r)) => Some((GameMessageBody::NewTurn(x), r)) },
        MessageType::PosChange => match PosChange::spec_take(s) { None => None, Some((x, r)) => Some((GameMessageBody::PosChange(x), r)) },
        MessageType::Summoning => match Summoning::spec_take(s) { None => None, Some((x, r)) => Some((GameMessageBody::Summoning(x), r)) },
        MessageType::Spsummoning => match Spsummoning::spec_take(s) { None => None, Some((x, r)) => Some((GameMessageBody::Spsummoning(x), r)) },
        MessageType::Chaining => match Chaining::spec_take(s) { None => None, Some((x, r)) => Some((GameMessageBody::Chaining(x), r)) },
        MessageType::Damage => match Damage::spec_take(s) { None => None, Some((x, r)) => Some((GameMessageBody::Damage(x), r)) },
        MessageType::Recover => match Recover::spec_take(s) { None => None, Some((x, r)) => Some((GameMessageBody::Recover(x), r)) },
        _ => Some((GameMessageBody::Empty(Empty), s)),
    }
}

impl Struct for GameMessage {
    open spec fn spec_wf(v: GameMessage) -> bool {
        if has_body(v.kind) { body_kind(v.message) == Some(v.kind) } else { v.message is Empty }
    }

    open spec fn spec_fixed() -> bool {
        true
    }

    open spec fn spec_serialize(v: GameMessage) -> Seq<u8> {
        seq![v.kind.spec_value()] + body_bytes(v.message)
    }

    open spec fn spec_take(s: Seq<u8>) -> Option<(GameMessage, Seq<u8>)> {
        match take_u8(s) {
            None => None,
            Some((code, s)) => match MessageType::spec_try_from(code) {
                None => None,
                Some(kind) => match take_body(kind, s) {
                    None => None,
                    Some((message, s)) => Some((GameMessage { kind, message }, s)),
                },
            },
        }
    }

    fn serialize(&self) -> (r: Vec<u8>) {
        let mut out: Vec<u8> = Vec::new();
        push_u8(&mut out, self.kind.into_u8());
        let body = match &self.message {
            GameMessageBody::ShuffleDeck(x) => x.serialize(),
            GameMessageBody::Hint(x) => x.serialize(),
            GameMessageBody::Start(x) => x.serialize(),
            GameMessageBody::Win(x) => x.serialize(),
            GameMessageBody::NewTurn(x) => x.serialize(),
            GameMessageBody::PosChange(x) => x.serialize(),
            GameMessageBody::Summoning(x) => x.serialize(),
            GameMessageBody::Spsummoning(x) => x.serialize(),
            GameMessageBody::Chaining(x) => x.serialize(),
            GameMessageBody::Damage(x) => x.serialize(),
            GameMessageBody::Recover(x) => x.serialize(),
            GameMessageBody::Empty(x) => x.serialize(),
        };
        push_bytes(&mut out, body.as_slice());
        out
    }

    fn take(data: &[u8], pos: usize) -> (r: Option<(GameMessage, usize)>) {
        let (code, p) = match read_u8(data, pos) { None => return None, Some(x) => x };
        let kind = match MessageType::try_from_u8(code) { None => return None, Some(x) => x };
        let (message, p) = match kind {
            MessageType::ShuffleDeck => match ShuffleDeck::take(data, p) { None => return None, Some((x, q)) => (GameMessageBody::ShuffleDeck(x), q) },
            MessageType::Hint => match Hint::take(data, p) { None => return None, Some((x, q)) => (GameMessageBody::Hint(x), q) },
            MessageType::Start => match Start::take(data, p) { None => return None, Some((x, q)) => (GameMessageBody::Start(x), q) },
            MessageType::Win => match Win::take(data, p) { None => return None, Some((x, q)) => (GameMessageBody::Win(x), q) },
            MessageType::NewTurn => match NewTurn::take(data, p) { None => return None, Some((x, q)) => (GameMessageBody::NewTurn(x), q) },
            MessageType::PosChange => match PosChange::take(data, p) { None => return None, Some((x, q)) => (GameMessageBody::PosChange(x), q) },
            MessageType::Summoning => match Summoning::take(data, p) { None => return None, Some((x, q)) => (GameMessageBody::Summoning(x), q) },
            MessageType::Spsummoning => match Spsummoning::take(data, p) { None => return None, Some((x, q)) => (GameMessageBody::Spsummoning(x), q) },
            MessageType::Chaining => match Chaining::take(data, p) { None => return None, Some((x, q)) => (GameMessageBody::Chaining(x), q) },
            MessageType::Damage => match Damage::take(data, p) { None => return None, Some((x, q)) => (GameMessageBody::Damage(x), q) },
            MessageType::Recover => match Recover::take(data, p) { None => return None, Some((x, q)) => (GameMessageBody::Recover(x), q) },
            _ => (GameMessageBody::Empty(Empty), p),
        };
        Some((GameMessage { kind, message }, p))
    }

    proof fn lemma_roundtrip(v: GameMessage, rest: Seq<u8>) {
        let body = body_bytes(v.message);
        assert(seq![v.kind.spec_value()] + body + rest =~= seq![v.kind.spec_value()] + (body + rest));
        lemma_u8_roundtrip(v.kind.spec_value(), body + rest);
        v.kind.lemma_value_roundtrip(0);
        match v.message {
            GameMessageBody::ShuffleDeck(x) => { ShuffleDeck::lemma_roundtrip(x, rest); },
            GameMessageBody::Hint(x) => { Hint::lemma_roundtrip(x, rest); },
            GameMessageBody::Start(x) => { Start::lemma_roundtrip(x, rest); },
            GameMessageBody::Win(x) => { Win::lemma_roundtrip(x, rest); },
            GameMessageBody::NewTurn(x) => { NewTurn::lemma_roundtrip(x, rest); },
            GameMessageBody::PosChange(x) => { PosChange::lemma_roundtrip(x, rest); },
            GameMessageBody::Summoning(x) => { Summoning::lemma_roundtrip(x, rest); },
            GameMessageBody::Spsummoning(x) => { Spsummoning::lemma_roundtrip(x, rest); },
            GameMessageBody::Chaining(x) => { Chaining::lemma_roundtrip(x, rest); },
            GameMessageBody::Damage(x) => { Damage::lemma_roundtrip(x, rest); },
            GameMessageBody::Recover(x) => { Recover::lemma_roundtrip(x, rest); },
            GameMessageBody::Empty(x) => {},
        }
    }
}

/// The body of `GameMessage` is laid out as the protocol has it, field by
/// field: kind, message.
pub proof fn law_game_message_layout(v: GameMessage)
    requires
        GameMessage::spec_wf(v),
    ensures
        GameMessage::spec_serialize(v).subrange(0, 1) == seq![v.kind.spec_value()],
        GameMessage::spec_serialize(v).skip(1) == body_bytes(v.message),
{
    let b = GameMessage::spec_serialize(v);
    assert(b.subrange(0, 1) =~= seq![v.kind.spec_value()]);
    assert(b.skip(1) =~= body_bytes(v.message));
}

impl MappedStruct for GameMessage {
    open spec fn spec_message() -> crate::ygopro::message::MessageType {
        crate::ygopro::message::MessageType::STOC(crate::ygopro::message::stoc::MessageType::GameMessage)
    }

    fn message() -> (r: crate::ygopro::message::MessageType) {
        crate::ygopro::message::MessageType::STOC(crate::ygopro::message::stoc::MessageType::GameMessage)
    }
}

/// The general message type of a game message kind.
pub fn generate_message_type(_type: MessageType) -> (r: crate::ygopro::message::MessageType)
    ensures
        r == crate::ygopro::message::MessageType::GM(_type),
{
    crate::ygopro::message::MessageType::GM(_type)
}

} // verus!
