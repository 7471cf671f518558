//! Constants of the ygopro protocol, each with the number that stands for it
//! on the wire and the way back from a number.
use vstd::prelude::*;

verus! {

/// Identifiers of host packets broadcast on a local network.
#[derive(Copy, Clone, Debug, PartialEq, Eq, Structural)]
pub enum Network {
    ServerId,
    ClientId,
}

impl Network {
    /// The number that stands for this value on the wire.
    pub open spec fn spec_value(self) -> u16 {
        match self {
            Network::ServerId => 29736,
            Network::ClientId => 57078,
        }
    }

    /// The value that a wire number stands for, if any.
    #[verifier::opaque]
    pub open spec fn spec_try_from(v: u16) -> Option<Network> {
        if v == 29736 { Some(Network::ServerId) } else if v == 57078 { Some(Network::ClientId) } else
        { None }
    }

    pub fn into_u16(self) -> (r: u16)
        ensures
            r == self.spec_value(),
    {
        match self {
            Network::ServerId => 29736,
            Network::ClientId => 57078,
        }
    }

    pub fn try_from_u16(v: u16) -> (r: Option<Network>)
        ensures
            r == Self::spec_try_from(v),
    {
        proof { reveal(Network::spec_try_from); }
        if v == 29736 { return Some(Network::ServerId); }
        if v == 57078 { return Some(Network::ClientId); }
        None
    }

    /// Every value survives the trip through its number, and every number
    /// that stands for a value is that value's number.
    pub proof fn lemma_value_roundtrip(self, v: u16)
        ensures
            Self::spec_try_from(self.spec_value()) == Some(self),
            Self::spec_try_from(v) matches Some(x) ==> x.spec_value() == v,
    {
        reveal(Network::spec_try_from);
    }
}

/// A seat at the duel table; `Observer` watches.
#[derive(Copy, Clone, Debug, PartialEq, Eq, Structural, PartialOrd, Ord, Hash)]
pub enum Netplayer {
    Player1,
    Player2,
    Player3,
    Player4,
    Player5,
    Player6,
    Observer,
}

impl Netplayer {
    /// The number that stands for this value on the wire.
    pub open spec fn spec_value(self) -> u8 {
        match self {
            Netplayer::Player1 => 0,
            Netplayer::Player2 => 1,
            Netplayer::Player3 => 2,
            Netplayer::Player4 => 3,
            Netplayer::Player5 => 4,
            Netplayer::Player6 => 5,
            Netplayer::Observer => 7,
        }
    }

    /// The value that a wire number stands for, if any.
    #[verifier::opaque]
    pub open spec fn spec_try_from(v: u8) -> Option<Netplayer> {
        if v == 0 { Some(Netplayer::Player1) } else if v == 1 { Some(Netplayer::Player2) } else
        if v == 2 { Some(Netplayer::Player3) } else if v == 3 { Some(Netplayer::Player4) } else
        if v == 4 { Some(Netplayer::Player5) } else if v == 5 { Some(Netplayer::Player6) } else
        if v == 7 { Some(Netplayer::Observer) } else { None }
    }

    pub fn into_u8(self) -> (r: u8)
        ensures
            r == self.spec_value(),
    {
        match self {
            Netplayer::Player1 => 0,
            Netplayer::Player2 => 1,
            Netplayer::Player3 => 2,
            Netplayer::Player4 => 3,
            Netplayer::Player5 => 4,
            Netplayer::Player6 => 5,
            Netplayer::Observer => 7,
        }
    }

    pub fn try_from_u8(v: u8) -> (r: Option<Netplayer>)
        ensures
            r == Self::spec_try_from(v),
    {
        proof { reveal(Netplayer::spec_try_from); }
        if v == 0 { return Some(Netplayer::Player1); }
        if v == 1 { return Some(Netplayer::Player2); }
        if v == 2 { return Some(Netplayer::Player3); }
        if v == 3 { return Some(Netplayer::Player4); }
        if v == 4 { return Some(Netplayer::Player5); }
        if v == 5 { return Some(Netplayer::Player6); }
        if v == 7 { return Some(Netplayer::Observer); }
        None
    }

    /// Every value survives the trip through its number, and every number
    /// that stands for a value is that value's number.
    pub proof fn lemma_value_roundtrip(self, v: u8)
        ensures
            Self::spec_try_from(self.spec_value()) == Some(self),
            Self::spec_try_from(v) matches Some(x) ==> x.spec_value() == v,
    {
        reveal(Netplayer::spec_try_from);
    }
}

/// How a seat changed in the waiting room.
#[derive(Copy, Clone, Debug, PartialEq, Eq, Structural)]
pub enum PlayerChange {
    Observe,
    Ready,
    Notready,
    Leave,
}

impl PlayerChange {
    /// The number that stands for this value on the wire.
    pub open spec fn spec_value(self) -> u8 {
        match self {
            PlayerChange::Observe => 8,
            PlayerChange::Ready => 9,
            PlayerChange::Notready => 10,
            PlayerChange::Leave => 11,
        }
    }

    /// The value that a wire number stands for, if any.
    #[verifier::opaque]
    pub open spec fn spec_try_from(v: u8) -> Option<PlayerChange> {
        if v == 8 { Some(PlayerChange::Observe) } else if v == 9 { Some(PlayerChange::Ready) } else
        if v == 10 { Some(PlayerChange::Notready) } else if v == 11 { Some(PlayerChange::Leave) } else
        { None }
    }

    pub fn into_u8(self) -> (r: u8)
        ensures
            r == self.spec_value(),
    {
        match self {
            PlayerChange::Observe => 8,
            PlayerChange::Ready => 9,
            PlayerChange::Notready => 10,
            PlayerChange::Leave => 11,
        }
    }

    pub fn try_from_u8(v: u8) -> (r: Option<PlayerChange>)
        ensures
            r == Self::spec_try_from(v),
    {
        proof { reveal(PlayerChange::spec_try_from); }
        if v == 8 { return Some(PlayerChange::Observe); }
        if v == 9 { return Some(PlayerChange::Ready); }
        if v == 10 { return Some(PlayerChange::Notready); }
        if v == 11 { return Some(PlayerChange::Leave); }
        None
    }

    /// Every value survives the trip through its number, and every number
    /// that stands for a value is that value's number.
    pub proof fn lemma_value_roundtrip(self, v: u8)
        ensures
            Self::spec_try_from(self.spec_value()) == Some(self),
            Self::spec_try_from(v) matches Some(x) ==> x.spec_value() == v,
    {
        reveal(PlayerChange::spec_try_from);
    }
}

/// Why the server refused a request.
#[derive(Copy, Clone, Debug, PartialEq, Eq, Structural)]
pub enum ErrorMessage {
    Joinerror,
    Deckerror,
    Sideerror,
    Vererror,
}

impl ErrorMessage {
    /// The number that stands for this value on the wire.
    pub open spec fn spec_value(self) -> u8 {
        match self {
            ErrorMessage::Joinerror => 1,
            ErrorMessage::Deckerror => 2,
            ErrorMessage::Sideerror => 3,
            ErrorMessage::Vererror => 4,
        }
    }

    /// The value that a wire number stands for, if any.
    #[verifier::opaque]
    pub open spec fn spec_try_from(v: u8) -> Option<ErrorMessage> {
        if v == 1 { Some(ErrorMessage::Joinerror) } else if v == 2 { Some(ErrorMessage::Deckerror) } else
        if v == 3 { Some(ErrorMessage::Sideerror) } else if v == 4 { Some(ErrorMessage::Vererror) } else
        { None }
    }

    pub fn into_u8(self) -> (r: u8)
        ensures
            r == self.spec_value(),
    {
        match self {
            ErrorMessage::Joinerror => 1,
            ErrorMessage::Deckerror => 2,
            ErrorMessage::Sideerror => 3,
            ErrorMessage::Vererror => 4,
        }
    }

    pub fn try_from_u8(v: u8) -> (r: Option<ErrorMessage>)
        ensures
            r == Self::spec_try_from(v),
    {
        proof { reveal(ErrorMessage::spec_try_from); }
        if v == 1 { return Some(ErrorMessage::Joinerror); }
        if v == 2 { return Some(ErrorMessage::Deckerror); }
        if v == 3 { return Some(ErrorMessage::Sideerror); }
        if v == 4 { return Some(ErrorMessage::Vererror); }
        None
    }

    /// Every value survives the trip through its number, and every number
    /// that stands for a value is that value's number.
    pub proof fn lemma_value_roundtrip(self, v: u8)
        ensures
            Self::spec_try_from(self.spec_value()) == Some(self),
            Self::spec_try_from(v) matches Some(x) ==> x.spec_value() == v,
    {
        reveal(ErrorMessage::spec_try_from);
    }
}

/// Single duel, match of three, or tag duel.
#[derive(Copy, Clone, Debug, PartialEq, Eq, Structural, Hash)]
pub enum Mode {
    Single,
    Match,
    Tag,
}

impl Mode {
    /// The number that stands for this value on the wire.
    pub open spec fn spec_value(self) -> u8 {
        match self {
            Mode::Single => 0,
            Mode::Match => 1,
            Mode::Tag => 2,
        }
    }

    /// The value that a wire number stands for, if any.
    #[verifier::opaque]
    pub open spec fn spec_try_from(v: u8) -> Option<Mode> {
        if v == 0 { Some(Mode::Single) } else if v == 1 { Some(Mode::Match) } else if v == 2 { Some(Mode::Tag) } else
        { None }
    }

    pub fn into_u8(self) -> (r: u8)
        ensures
            r == self.spec_value(),
    {
        match self {
            Mode::Single => 0,
            Mode::Match => 1,
            Mode::Tag => 2,
        }
    }

    pub fn try_from_u8(v: u8) -> (r: Option<Mode>)
        ensures
            r == Self::spec_try_from(v),
    {
        proof { reveal(Mode::spec_try_from); }
        if v == 0 { return Some(Mode::Single); }
        if v == 1 { return Some(Mode::Match); }
        if v == 2 { return Some(Mode::Tag); }
        None
    }

    /// Every value survives the trip through its number, and every number
    /// that stands for a value is that value's number.
    pub proof fn lemma_value_roundtrip(self, v: u8)
        ensures
            Self::spec_try_from(self.spec_value()) == Some(self),
            Self::spec_try_from(v) matches Some(x) ==> x.spec_value() == v,
    {
        reveal(Mode::spec_try_from);
    }
}

/// Where a card lies.
#[derive(Copy, Clone, Debug, PartialEq, Eq, Structural)]
pub enum Location {
    Deck,
    Hand,
    MZone,
    SZone,
    Grave,
    Removed,
    Extra,
    Overlay,
    OnField,
}

impl Location {
    /// The number that stands for this value on the wire.
    pub open spec fn spec_value(self) -> u8 {
        match self {
            Location::Deck => 1,
            Location::Hand => 2,
            Location::MZone => 4,
            Location::SZone => 8,
            Location::Grave => 16,
            Location::Removed => 32,
            Location::Extra => 64,
            Location::Overlay => 128,
            Location::OnField => 12,
        }
    }

    /// The value that a wire number stands for, if any.
    #[verifier::opaque]
    pub open spec fn spec_try_from(v: u8) -> Option<Location> {
        if v == 1 { Some(Location::Deck) } else if v == 2 { Some(Location::Hand) } else if v == 4 { Some(Location::MZone) } else
        if v == 8 { Some(Location::SZone) } else if v == 16 { Some(Location::Grave) } else
        if v == 32 { Some(Location::Removed) } else if v == 64 { Some(Location::Extra) } else
        if v == 128 { Some(Location::Overlay) } else if v == 12 { Some(Location::OnField) } else
        { None }
    }

    pub fn into_u8(self) -> (r: u8)
        ensures
            r == self.spec_value(),
    {
        match self {
            Location::Deck => 1,
            Location::Hand => 2,
            Location::MZone => 4,
            Location::SZone => 8,
            Location::Grave => 16,
            Location::Removed => 32,
            Location::Extra => 64,
            Location::Overlay => 128,
            Location::OnField => 12,
        }
    }

    pub fn try_from_u8(v: u8) -> (r: Option<Location>)
        ensures
            r == Self::spec_try_from(v),
    {
        proof { reveal(Location::spec_try_from); }
        if v == 1 { return Some(Location::Deck); }
        if v == 2 { return Some(Location::Hand); }
        if v == 4 { return Some(Location::MZone); }
        if v == 8 { return Some(Location::SZone); }
        if v == 16 { return Some(Location::Grave); }
        if v == 32 { return Some(Location::Removed); }
        if v == 64 { return Some(Location::Extra); }
        if v == 128 { return Some(Location::Overlay); }
        if v == 12 { return Some(Location::OnField); }
        None
    }

    /// Every value survives the trip through its number, and every number
    /// that stands for a value is that value's number.
    pub proof fn lemma_value_roundtrip(self, v: u8)
        ensures
            Self::spec_try_from(self.spec_value()) == Some(self),
            Self::spec_try_from(v) matches Some(x) ==> x.spec_value() == v,
    {
        reveal(Location::spec_try_from);
    }
}

/// How a card is placed.
#[derive(Copy, Clone, Debug, PartialEq, Eq, Structural)]
pub enum Position {
    FaceupAttack,
    FaceDownAttack,
    FaceupDefense,
    FacedownDefense,
    Faceup,
    Facedown,
    Attack,
    Defense,
}

impl Position {
    /// The number that stands for this value on the wire.
    pub open spec fn spec_value(self) -> u8 {
        match self {
            Position::FaceupAttack => 1,
            Position::FaceDownAttack => 2,
            Position::FaceupDefense => 4,
            Position::FacedownDefense => 8,
            Position::Faceup => 5,
            Position::Facedown => 10,
            Position::Attack => 3,
            Position::Defense => 12,
        }
    }

    /// The value that a wire number stands for, if any.
    #[verifier::opaque]
    pub open spec fn spec_try_from(v: u8) -> Option<Position> {
        if v == 1 { Some(Position::FaceupAttack) } else if v == 2 { Some(Position::FaceDownAttack) } else
        if v == 4 { Some(Position::FaceupDefense) } else if v == 8 { Some(Position::FacedownDefense) } else
        if v == 5 { Some(Position::Faceup) } else if v == 10 { Some(Position::Facedown) } else
        if v == 3 { Some(Position::Attack) } else if v == 12 { Some(Position::Defense) } else
        { None }
    }

    pub fn into_u8(self) -> (r: u8)
        ensures
            r == self.spec_value(),
    {
        match self {
            Position::FaceupAttack => 1,
            Position::FaceDownAttack => 2,
            Position::FaceupDefense => 4,
            Position::FacedownDefense => 8,
            Position::Faceup => 5,
            Position::Facedown => 10,
            Position::Attack => 3,
            Position::Defense => 12,
        }
    }

    pub fn try_from_u8(v: u8) -> (r: Option<Position>)
        ensures
            r == Self::spec_try_from(v),
    {
        proof { reveal(Position::spec_try_from); }
        if v == 1 { return Some(Position::FaceupAttack); }
        if v == 2 { return Some(Position::FaceDownAttack); }
        if v == 4 { return Some(Position::FaceupDefense); }
        if v == 8 { return Some(Position::FacedownDefense); }
        if v == 5 { return Some(Position::Faceup); }
        if v == 10 { return Some(Position::Facedown); }
        if v == 3 { return Some(Position::Attack); }
        if v == 12 { return Some(Position::Defense); }
        None
    }

    /// Every value survives the trip through its number, and every number
    /// that stands for a value is that value's number.
    pub proof fn lemma_value_roundtrip(self, v: u8)
        ensures
            Self::spec_try_from(self.spec_value()) == Some(self),
            Self::spec_try_from(v) matches Some(x) ==> x.spec_value() == v,
    {
        reveal(Position::spec_try_from);
    }
}

/// Kinds of the messages that the duel engine emits.
#[derive(Copy, Clone, Debug, PartialEq, Eq, Structural, Hash)]
pub enum GameMessage {
    Retry,
    Hint,
    Waiting,
    Start,
    Win,
    UpdateData,
    UpdateCard,
    RequestDeck,
    SelectBattlecmd,
    SelectIdlecmd,
    SelectEffectyn,
    SelectYesno,
    SelectOption,
    SelectCard,
    SelectChain,
    SelectPlace,
    SelectPosition,
    SelectTribute,
    SortChain,
    SelectCounter,
    SelectSum,
    SelectDisfield,
    SortCard,
    SelectUnselectCard,
    ConfirmDecktop,
    ConfirmCards,
    ShuffleDeck,
    ShuffleHand,
    RefreshDeck,
    SwapGraveDeck,
    ShuffleSetCard,
    ReverseDeck,
    DeckTop,
    MsgShuffleExtra,
    NewTurn,
    NewPhase,
    ConfirmExtratop,
    Move,
    PosChange,
    SetCard,
    Swap,
    FieldDisabled,
    Summoning,
    Summoned,
    Spsummoning,
    Spsummoned,
    Flipsummoning,
    Flipsummoned,
    Chaining,
    Chained,
    ChainSolving,
    ChainSolved,
    ChainEnd,
    ChainNegated,
    ChainDisabled,
    CardSelected,
    RandomSelected,
    BecomeTarget,
    Draw,
    Damage,
    Recover,
    Equip,
    Lpupdate,
    Unequip,
    CardTarget,
    CancelTarget,
    PayLpcost,
    AddCounter,
    RemoveCounter,
    Attack,
    Battle,
    AttackDisabled,
    DamageStepStart,
    DamageStepEnd,
    MissedEffect,
    BeChainTarget,
    CreateRelation,
    ReleaseRelation,
    TossCoin,
    TossDice,
    RockPaperScissors,
    HandRes,
    AnnounceRace,
    AnnounceAttrib,
    AnnounceCard,
    AnnounceNumber,
    CardHint,
    TagSwap,
    ReloadField,
    AiName,
    ShowHint,
    MatchKill,
    CustomMsg,
}

impl GameMessage {
    /// The number that stands for this value on the wire.
    pub open spec fn spec_value(self) -> u8 {
        match self {
            GameMessage::Retry => 1,
            GameMessage::Hint => 2,
            GameMessage::Waiting => 3,
            GameMessage::Start => 4,
            GameMessage::Win => 5,
            GameMessage::UpdateData => 6,
            GameMessage::UpdateCard => 7,
            GameMessage::RequestDeck => 8,
            GameMessage::SelectBattlecmd => 10,
            GameMessage::SelectIdlecmd => 11,
            GameMessage::SelectEffectyn => 12,
            GameMessage::SelectYesno => 13,
            GameMessage::SelectOption => 14,
            GameMessage::SelectCard => 15,
            GameMessage::SelectChain => 16,
            GameMessage::SelectPlace => 18,
            GameMessage::SelectPosition => 19,
            GameMessage::SelectTribute => 20,
            GameMessage::SortChain => 21,
            GameMessage::SelectCounter => 22,
            GameMessage::SelectSum => 23,
            GameMessage::SelectDisfield => 24,
            GameMessage::SortCard => 25,
            GameMessage::SelectUnselectCard => 26,
            GameMessage::ConfirmDecktop => 30,
            GameMessage::ConfirmCards => 31,
            GameMessage::ShuffleDeck => 32,
            GameMessage::ShuffleHand => 33,
            GameMessage::RefreshDeck => 34,
            GameMessage::SwapGraveDeck => 35,
            GameMessage::ShuffleSetCard => 36,
            GameMessage::ReverseDeck => 37,
            GameMessage::DeckTop => 38,
            GameMessage::MsgShuffleExtra => 39,
            GameMessage::NewTurn => 40,
            GameMessage::NewPhase => 41,
            GameMessage::ConfirmExtratop => 42,
            GameMessage::Move => 50,
            GameMessage::PosChange => 53,
            GameMessage::SetCard => 54,
            GameMessage::Swap => 55,
            GameMessage::FieldDisabled => 56,
            GameMessage::Summoning => 60,
            GameMessage::Summoned => 61,
            GameMessage::Spsummoning => 62,
            GameMessage::Spsummoned => 63,
            GameMessage::Flipsummoning => 64,
            GameMessage::Flipsummoned => 65,
            GameMessage::Chaining => 70,
            GameMessage::Chained => 71,
            GameMessage::ChainSolving => 72,
            GameMessage::ChainSolved => 73,
            GameMessage::ChainEnd => 74,
            GameMessage::ChainNegated => 75,
            GameMessage::ChainDisabled => 76,
            GameMessage::CardSelected => 80,
            GameMessage::RandomSelected => 81,
            GameMessage::BecomeTarget => 83,
            GameMessage::Draw => 90,
            GameMessage::Damage => 91,
            GameMessage::Recover => 92,
            GameMessage::Equip => 93,
            GameMessage::Lpupdate => 94,
            GameMessage::Unequip => 95,
            GameMessage::CardTarget => 96,
            GameMessage::CancelTarget => 97,
            GameMessage::PayLpcost => 100,
            GameMessage::AddCounter => 101,
            GameMessage::RemoveCounter => 102,
            GameMessage::Attack => 110,
            GameMessage::Battle => 111,
            GameMessage::AttackDisabled => 112,
            GameMessage::DamageStepStart => 113,
            GameMessage::DamageStepEnd => 114,
            GameMessage::MissedEffect => 120,
            GameMessage::BeChainTarget => 121,
            GameMessage::CreateRelation => 122,
            GameMessage::ReleaseRelation => 123,
            GameMessage::TossCoin => 130,
            GameMessage::TossDice => 131,
            GameMessage::RockPaperScissors => 132,
            GameMessage::HandRes => 133,
            GameMessage::AnnounceRace => 140,
            GameMessage::AnnounceAttrib => 141,
            GameMessage::AnnounceCard => 142,
            GameMessage::AnnounceNumber => 143,
            GameMessage::CardHint => 160,
            GameMessage::TagSwap => 161,
            GameMessage::ReloadField => 162,
            GameMessage::AiName => 163,
            GameMessage::ShowHint => 164,
            GameMessage::MatchKill => 170,
            GameMessage::CustomMsg => 180,
        }
    }

    /// The value that a wire number stands for, if any.
    #[verifier::opaque]
    pub open spec fn spec_try_from(v: u8) -> Option<GameMessage> {
        if v == 1 { Some(GameMessage::Retry) } else if v == 2 { Some(GameMessage::Hint) } else
        if v == 3 { Some(GameMessage::Waiting) } else if v == 4 { Some(GameMessage::Start) } else
        if v == 5 { Some(GameMessage::Win) } else if v == 6 { Some(GameMessage::UpdateData) } else
        if v == 7 { Some(GameMessage::UpdateCard) } else if v == 8 { Some(GameMessage::RequestDeck) } else
        if v == 10 { Some(GameMessage::SelectBattlecmd) } else if v == 11 { Some(GameMessage::SelectIdlecmd) } else
        if v == 12 { Some(GameMessage::SelectEffectyn) } else if v == 13 { Some(GameMessage::SelectYesno) } else
        if v == 14 { Some(GameMessage::SelectOption) } else if v == 15 { Some(GameMessage::SelectCard) } else
        if v == 16 { Some(GameMessage::SelectChain) } else if v == 18 { Some(GameMessage::SelectPlace) } else
        if v == 19 { Some(GameMessage::SelectPosition) } else if v == 20 { Some(GameMessage::SelectTribute) } else
        if v == 21 { Some(GameMessage::SortChain) } else if v == 22 { Some(GameMessage::SelectCounter) } else
        if v == 23 { Some(GameMessage::SelectSum) } else if v == 24 { Some(GameMessage::SelectDisfield) } else
        if v == 25 { Some(GameMessage::SortCard) } else if v == 26 { Some(GameMessage::SelectUnselectCard) } else
        if v == 30 { Some(GameMessage::ConfirmDecktop) } else if v == 31 { Some(GameMessage::ConfirmCards) } else
        if v == 32 { Some(GameMessage::ShuffleDeck) } else if v == 33 { Some(GameMessage::ShuffleHand) } else
        if v == 34 { Some(GameMessage::RefreshDeck) } else if v == 35 { Some(GameMessage::SwapGraveDeck) } else
        if v == 36 { Some(GameMessage::ShuffleSetCard) } else if v == 37 { Some(GameMessage::ReverseDeck) } else
        if v == 38 { Some(GameMessage::DeckTop) } else if v == 39 { Some(GameMessage::MsgShuffleExtra) } else
        if v == 40 { Some(GameMessage::NewTurn) } else if v == 41 { Some(GameMessage::NewPhase) } else
        if v == 42 { Some(GameMessage::ConfirmExtratop) } else if v == 50 { Some(GameMessage::Move) } else
        if v == 53 { Some(GameMessage::PosChange) } else if v == 54 { Some(GameMessage::SetCard) } else
        if v == 55 { Some(GameMessage::Swap) } else if v == 56 { Some(GameMessage::FieldDisabled) } else
        if v == 60 { Some(GameMessage::Summoning) } else if v == 61 { Some(GameMessage::Summoned) } else
        if v == 62 { Some(GameMessage::Spsummoning) } else if v == 63 { Some(GameMessage::Spsummoned) } else
        if v == 64 { Some(GameMessage::Flipsummoning) } else if v == 65 { Some(GameMessage::Flipsummoned) } else
        if v == 70 { Some(GameMessage::Chaining) } else if v == 71 { Some(GameMessage::Chained) } else
        if v == 72 { Some(GameMessage::ChainSolving) } else if v == 73 { Some(GameMessage::ChainSolved) } else
        if v == 74 { Some(GameMessage::ChainEnd) } else if v == 75 { Some(GameMessage::ChainNegated) } else
        if v == 76 { Some(GameMessage::ChainDisabled) } else if v == 80 { Some(GameMessage::CardSelected) } else
        if v == 81 { Some(GameMessage::RandomSelected) } else if v == 83 { Some(GameMessage::BecomeTarget) } else
        if v == 90 { Some(GameMessage::Draw) } else if v == 91 { Some(GameMessage::Damage) } else
        if v == 92 { Some(GameMessage::Recover) } else if v == 93 { Some(GameMessage::Equip) } else
        if v == 94 { Some(GameMessage::Lpupdate) } else if v == 95 { Some(GameMessage::Unequip) } else
        if v == 96 { Some(GameMessage::CardTarget) } else if v == 97 { Some(GameMessage::CancelTarget) } else
        if v == 100 { Some(GameMessage::PayLpcost) } else if v == 101 { Some(GameMessage::AddCounter) } else
        if v == 102 { Some(GameMessage::RemoveCounter) } else if v == 110 { Some(GameMessage::Attack) } else
        if v == 111 { Some(GameMessage::Battle) } else if v == 112 { Some(GameMessage::AttackDisabled) } else
        if v == 113 { Some(GameMessage::DamageStepStart) } else if v == 114 { Some(GameMessage::DamageStepEnd) } else
        if v == 120 { Some(GameMessage::MissedEffect) } else if v == 121 { Some(GameMessage::BeChainTarget) } else
        if v == 122 { Some(GameMessage::CreateRelation) } else if v == 123 { Some(GameMessage::ReleaseRelation) } else
        if v == 130 { Some(GameMessage::TossCoin) } else if v == 131 { Some(GameMessage::TossDice) } else
        if v == 132 { Some(GameMessage::RockPaperScissors) } else if v == 133 { Some(GameMessage::HandRes) } else
        if v == 140 { Some(GameMessage::AnnounceRace) } else if v == 141 { Some(GameMessage::AnnounceAttrib) } else
        if v == 142 { Some(GameMessage::AnnounceCard) } else if v == 143 { Some(GameMessage::AnnounceNumber) } else
        if v == 160 { Some(GameMessage::CardHint) } else if v == 161 { Some(GameMessage::TagSwap) } else
        if v == 162 { Some(GameMessage::ReloadField) } else if v == 163 { Some(GameMessage::AiName) } else
        if v == 164 { Some(GameMessage::ShowHint) } else if v == 170 { Some(GameMessage::MatchKill) } else
        if v == 180 { Some(GameMessage::CustomMsg) } else { None }
    }

    pub fn into_u8(self) -> (r: u8)
        ensures
            r == self.spec_value(),
    {
        match self {
            GameMessage::Retry => 1,
            GameMessage::Hint => 2,
            GameMessage::Waiting => 3,
            GameMessage::Start => 4,
            GameMessage::Win => 5,
            GameMessage::UpdateData => 6,
            GameMessage::UpdateCard => 7,
            GameMessage::RequestDeck => 8,
            GameMessage::SelectBattlecmd => 10,
            GameMessage::SelectIdlecmd => 11,
            GameMessage::SelectEffectyn => 12,
            GameMessage::SelectYesno => 13,
            GameMessage::SelectOption => 14,
            GameMessage::SelectCard => 15,
            GameMessage::SelectChain => 16,
            GameMessage::SelectPlace => 18,
            GameMessage::SelectPosition => 19,
            GameMessage::SelectTribute => 20,
            GameMessage::SortChain => 21,
            GameMessage::SelectCounter => 22,
            GameMessage::SelectSum => 23,
            GameMessage::SelectDisfield => 24,
            GameMessage::SortCard => 25,
            GameMessage::SelectUnselectCard => 26,
            GameMessage::ConfirmDecktop => 30,
            GameMessage::ConfirmCards => 31,
            GameMessage::ShuffleDeck => 32,
            GameMessage::ShuffleHand => 33,
            GameMessage::RefreshDeck => 34,
            GameMessage::SwapGraveDeck => 35,
            GameMessage::ShuffleSetCard => 36,
            GameMessage::ReverseDeck => 37,
            GameMessage::DeckTop => 38,
            GameMessage::MsgShuffleExtra => 39,
            GameMessage::NewTurn => 40,
            GameMessage::NewPhase => 41,
            GameMessage::ConfirmExtratop => 42,
            GameMessage::Move => 50,
            GameMessage::PosChange => 53,
            GameMessage::SetCard => 54,
            GameMessage::Swap => 55,
            GameMessage::FieldDisabled => 56,
            GameMessage::Summoning => 60,
            GameMessage::Summoned => 61,
            GameMessage::Spsummoning => 62,
            GameMessage::Spsummoned => 63,
            GameMessage::Flipsummoning => 64,
            GameMessage::Flipsummoned => 65,
            GameMessage::Chaining => 70,
            GameMessage::Chained => 71,
            GameMessage::ChainSolving => 72,
            GameMessage::ChainSolved => 73,
            GameMessage::ChainEnd => 74,
            GameMessage::ChainNegated => 75,
            GameMessage::ChainDisabled => 76,
            GameMessage::CardSelected => 80,
            GameMessage::RandomSelected => 81,
            GameMessage::BecomeTarget => 83,
            GameMessage::Draw => 90,
            GameMessage::Damage => 91,
            GameMessage::Recover => 92,
            GameMessage::Equip => 93,
            GameMessage::Lpupdate => 94,
            GameMessage::Unequip => 95,
            GameMessage::CardTarget => 96,
            GameMessage::CancelTarget => 97,
            GameMessage::PayLpcost => 100,
            GameMessage::AddCounter => 101,
            GameMessage::RemoveCounter => 102,
            GameMessage::Attack => 110,
            GameMessage::Battle => 111,
            GameMessage::AttackDisabled => 112,
            GameMessage::DamageStepStart => 113,
            GameMessage::DamageStepEnd => 114,
            GameMessage::MissedEffect => 120,
            GameMessage::BeChainTarget => 121,
            GameMessage::CreateRelation => 122,
            GameMessage::ReleaseRelation => 123,
            GameMessage::TossCoin => 130,
            GameMessage::TossDice => 131,
            GameMessage::RockPaperScissors => 132,
            GameMessage::HandRes => 133,
            GameMessage::AnnounceRace => 140,
            GameMessage::AnnounceAttrib => 141,
            GameMessage::AnnounceCard => 142,
            GameMessage::AnnounceNumber => 143,
            GameMessage::CardHint => 160,
            GameMessage::TagSwap => 161,
            GameMessage::ReloadField => 162,
            GameMessage::AiName => 163,
            GameMessage::ShowHint => 164,
            GameMessage::MatchKill => 170,
            GameMessage::CustomMsg => 180,
        }
    }

    pub fn try_from_u8(v: u8) -> (r: Option<GameMessage>)
        ensures
            r == Self::spec_try_from(v),
    {
        proof { reveal(GameMessage::spec_try_from); }
        if v == 1 { return Some(GameMessage::Retry); }
        if v == 2 { return Some(GameMessage::Hint); }
        if v == 3 { return Some(GameMessage::Waiting); }
        if v == 4 { return Some(GameMessage::Start); }
        if v == 5 { return Some(GameMessage::Win); }
        if v == 6 { return Some(GameMessage::UpdateData); }
        if v == 7 { return Some(GameMessage::UpdateCard); }
        if v == 8 { return Some(GameMessage::RequestDeck); }
        if v == 10 { return Some(GameMessage::SelectBattlecmd); }
        if v == 11 { return Some(GameMessage::SelectIdlecmd); }
        if v == 12 { return Some(GameMessage::SelectEffectyn); }
        if v == 13 { return Some(GameMessage::SelectYesno); }
        if v == 14 { return Some(GameMessage::SelectOption); }
        if v == 15 { return Some(GameMessage::SelectCard); }
        if v == 16 { return Some(GameMessage::SelectChain); }
        if v == 18 { return Some(GameMessage::SelectPlace); }
        if v == 19 { return Some(GameMessage::SelectPosition); }
        if v == 20 { return Some(GameMessage::SelectTribute); }
        if v == 21 { return Some(GameMessage::SortChain); }
        if v == 22 { return Some(GameMessage::SelectCounter); }
        if v == 23 { return Some(GameMessage::SelectSum); }
        if v == 24 { return Some(GameMessage::SelectDisfield); }
        if v == 25 { return Some(GameMessage::SortCard); }
        if v == 26 { return Some(GameMessage::SelectUnselectCard); }
        if v == 30 { return Some(GameMessage::ConfirmDecktop); }
        if v == 31 { return Some(GameMessage::ConfirmCards); }
        if v == 32 { return Some(GameMessage::ShuffleDeck); }
        if v == 33 { return Some(GameMessage::ShuffleHand); }
        if v == 34 { return Some(GameMessage::RefreshDeck); }
        if v == 35 { return Some(GameMessage::SwapGraveDeck); }
        if v == 36 { return Some(GameMessage::ShuffleSetCard); }
        if v == 37 { return Some(GameMessage::ReverseDeck); }
        if v == 38 { return Some(GameMessage::DeckTop); }
        if v == 39 { return Some(GameMessage::MsgShuffleExtra); }
        if v == 40 { return Some(GameMessage::NewTurn); }
        if v == 41 { return Some(GameMessage::NewPhase); }
        if v == 42 { return Some(GameMessage::ConfirmExtratop); }
        if v == 50 { return Some(GameMessage::Move); }
        if v == 53 { return Some(GameMessage::PosChange); }
        if v == 54 { return Some(GameMessage::SetCard); }
        if v == 55 { return Some(GameMessage::Swap); }
        if v == 56 { return Some(GameMessage::FieldDisabled); }
        if v == 60 { return Some(GameMessage::Summoning); }
        if v == 61 { return Some(GameMessage::Summoned); }
        if v == 62 { return Some(GameMessage::Spsummoning); }
        if v == 63 { return Some(GameMessage::Spsummoned); }
        if v == 64 { return Some(GameMessage::Flipsummoning); }
        if v == 65 { return Some(GameMessage::Flipsummoned); }
        if v == 70 { return Some(GameMessage::Chaining); }
        if v == 71 { return Some(GameMessage::Chained); }
        if v == 72 { return Some(GameMessage::ChainSolving); }
        if v == 73 { return Some(GameMessage::ChainSolved); }
        if v == 74 { return Some(GameMessage::ChainEnd); }
        if v == 75 { return Some(GameMessage::ChainNegated); }
        if v == 76 { return Some(GameMessage::ChainDisabled); }
        if v == 80 { return Some(GameMessage::CardSelected); }
        if v == 81 { return Some(GameMessage::RandomSelected); }
        if v == 83 { return Some(GameMessage::BecomeTarget); }
        if v == 90 { return Some(GameMessage::Draw); }
        if v == 91 { return Some(GameMessage::Damage); }
        if v == 92 { return Some(GameMessage::Recover); }
        if v == 93 { return Some(GameMessage::Equip); }
        if v == 94 { return Some(GameMessage::Lpupdate); }
        if v == 95 { return Some(GameMessage::Unequip); }
        if v == 96 { return Some(GameMessage::CardTarget); }
        if v == 97 { return Some(GameMessage::CancelTarget); }
        if v == 100 { return Some(GameMessage::PayLpcost); }
        if v == 101 { return Some(GameMessage::AddCounter); }
        if v == 102 { return Some(GameMessage::RemoveCounter); }
        if v == 110 { return Some(GameMessage::Attack); }
        if v == 111 { return Some(GameMessage::Battle); }
        if v == 112 { return Some(GameMessage::AttackDisabled); }
        if v == 113 { return Some(GameMessage::DamageStepStart); }
        if v == 114 { return Some(GameMessage::DamageStepEnd); }
        if v == 120 { return Some(GameMessage::MissedEffect); }
        if v == 121 { return Some(GameMessage::BeChainTarget); }
        if v == 122 { return Some(GameMessage::CreateRelation); }
        if v == 123 { return Some(GameMessage::ReleaseRelation); }
        if v == 130 { return Some(GameMessage::TossCoin); }
        if v == 131 { return Some(GameMessage::TossDice); }
        if v == 132 { return Some(GameMessage::RockPaperScissors); }
        if v == 133 { return Some(GameMessage::HandRes); }
        if v == 140 { return Some(GameMessage::AnnounceRace); }
        if v == 141 { return Some(GameMessage::AnnounceAttrib); }
        if v == 142 { return Some(GameMessage::AnnounceCard); }
        if v == 143 { return Some(GameMessage::AnnounceNumber); }
        if v == 160 { return Some(GameMessage::CardHint); }
        if v == 161 { return Some(GameMessage::TagSwap); }
        if v == 162 { return Some(GameMessage::ReloadField); }
        if v == 163 { return Some(GameMessage::AiName); }
        if v == 164 { return Some(GameMessage::ShowHint); }
        if v == 170 { return Some(GameMessage::MatchKill); }
        if v == 180 { return Some(GameMessage::CustomMsg); }
        None
    }

    /// Every value survives the trip through its number, and every number
    /// that stands for a value is that value's number.
    pub proof fn lemma_value_roundtrip(self, v: u8)
        ensures
            Self::spec_try_from(self.spec_value()) == Some(self),
            Self::spec_try_from(v) matches Some(x) ==> x.spec_value() == v,
    {
        reveal(GameMessage::spec_try_from);
    }
}

/// Timings at which effects may be activated.
#[derive(Copy, Clone, Debug, PartialEq, Eq, Structural)]
pub enum Timing {
    DrawPhase,
    StandbyPhase,
    MainEnd,
    BattleStart,
    BattleEnd,
    EndPhase,
    Summon,
    Spsummon,
    Flipsummon,
    Mset,
    Sset,
    PosChange,
    Attack,
    DamageStep,
    DamageCal,
    ChainEnd,
    Draw,
    Damage,
    Recover,
    Destroy,
    Remove,
    Tohand,
    Todeck,
    Tograve,
    BattlePhase,
    Equip,
}

impl Timing {
    /// The number that stands for this value on the wire.
    pub open spec fn spec_value(self) -> u32 {
        match self {
            Timing::DrawPhase => 1,
            Timing::StandbyPhase => 2,
            Timing::MainEnd => 4,
            Timing::BattleStart => 8,
            Timing::BattleEnd => 16,
            Timing::EndPhase => 32,
            Timing::Summon => 64,
            Timing::Spsummon => 128,
            Timing::Flipsummon => 256,
            Timing::Mset => 512,
            Timing::Sset => 1024,
            Timing::PosChange => 2048,
            Timing::Attack => 4096,
            Timing::DamageStep => 8192,
            Timing::DamageCal => 16384,
            Timing::ChainEnd => 32768,
            Timing::Draw => 65536,
            Timing::Damage => 131072,
            Timing::Recover => 262144,
            Timing::Destroy => 524288,
            Timing::Remove => 1048576,
            Timing::Tohand => 2097152,
            Timing::Todeck => 4194304,
            Timing::Tograve => 8388608,
            Timing::BattlePhase => 16777216,
            Timing::Equip => 33554432,
        }
    }

    /// The value that a wire number stands for, if any.
    #[verifier::opaque]
    pub open spec fn spec_try_from(v: u32) -> Option<Timing> {
        if v == 1 { Some(Timing::DrawPhase) } else if v == 2 { Some(Timing::StandbyPhase) } else
        if v == 4 { Some(Timing::MainEnd) } else if v == 8 { Some(Timing::BattleStart) } else
        if v == 16 { Some(Timing::BattleEnd) } else if v == 32 { Some(Timing::EndPhase) } else
        if v == 64 { Some(Timing::Summon) } else if v == 128 { Some(Timing::Spsummon) } else
        if v == 256 { Some(Timing::Flipsummon) } else if v == 512 { Some(Timing::Mset) } else
        if v == 1024 { Some(Timing::Sset) } else if v == 2048 { Some(Timing::PosChange) } else
        if v == 4096 { Some(Timing::Attack) } else if v == 8192 { Some(Timing::DamageStep) } else
        if v == 16384 { Some(Timing::DamageCal) } else if v == 32768 { Some(Timing::ChainEnd) } else
        if v == 65536 { Some(Timing::Draw) } else if v == 131072 { Some(Timing::Damage) } else
        if v == 262144 { Some(Timing::Recover) } else if v == 524288 { Some(Timing::Destroy) } else
        if v == 1048576 { Some(Timing::Remove) } else if v == 2097152 { Some(Timing::Tohand) } else
        if v == 4194304 { Some(Timing::Todeck) } else if v == 8388608 { Some(Timing::Tograve) } else
        if v == 16777216 { Some(Timing::BattlePhase) } else if v == 33554432 { Some(Timing::Equip) } else
        { None }
    }

    pub fn into_u32(self) -> (r: u32)
        ensures
            r == self.spec_value(),
    {
        match self {
            Timing::DrawPhase => 1,
            Timing::StandbyPhase => 2,
            Timing::MainEnd => 4,
            Timing::BattleStart => 8,
            Timing::BattleEnd => 16,
            Timing::EndPhase => 32,
            Timing::Summon => 64,
            Timing::Spsummon => 128,
            Timing::Flipsummon => 256,
            Timing::Mset => 512,
            Timing::Sset => 1024,
            Timing::PosChange => 2048,
            Timing::Attack => 4096,
            Timing::DamageStep => 8192,
            Timing::DamageCal => 16384,
            Timing::ChainEnd => 32768,
            Timing::Draw => 65536,
            Timing::Damage => 131072,
            Timing::Recover => 262144,
            Timing::Destroy => 524288,
            Timing::Remove => 1048576,
            Timing::Tohand => 2097152,
            Timing::Todeck => 4194304,
            Timing::Tograve => 8388608,
            Timing::BattlePhase => 16777216,
            Timing::Equip => 33554432,
        }
    }

    pub fn try_from_u32(v: u32) -> (r: Option<Timing>)
        ensures
            r == Self::spec_try_from(v),
    {
        proof { reveal(Timing::spec_try_from); }
        if v == 1 { return Some(Timing::DrawPhase); }
        if v == 2 { return Some(Timing::StandbyPhase); }
        if v == 4 { return Some(Timing::MainEnd); }
        if v == 8 { return Some(Timing::BattleStart); }
        if v == 16 { return Some(Timing::BattleEnd); }
        if v == 32 { return Some(Timing::EndPhase); }
        if v == 64 { return Some(Timing::Summon); }
        if v == 128 { return Some(Timing::Spsummon); }
        if v == 256 { return Some(Timing::Flipsummon); }
        if v == 512 { return Some(Timing::Mset); }
        if v == 1024 { return Some(Timing::Sset); }
        if v == 2048 { return Some(Timing::PosChange); }
        if v == 4096 { return Some(Timing::Attack); }
        if v == 8192 { return Some(Timing::DamageStep); }
        if v == 16384 { return Some(Timing::DamageCal); }
        if v == 32768 { return Some(Timing::ChainEnd); }
        if v == 65536 { return Some(Timing::Draw); }
        if v == 131072 { return Some(Timing::Damage); }
        if v == 262144 { return Some(Timing::Recover); }
        if v == 524288 { return Some(Timing::Destroy); }
        if v == 1048576 { return Some(Timing::Remove); }
        if v == 2097152 { return Some(Timing::Tohand); }
        if v == 4194304 { return Some(Timing::Todeck); }
        if v == 8388608 { return Some(Timing::Tograve); }
        if v == 16777216 { return Some(Timing::BattlePhase); }
        if v == 33554432 { return Some(Timing::Equip); }
        None
    }

    /// Every value survives the trip through its number, and every number
    /// that stands for a value is that value's number.
    pub proof fn lemma_value_roundtrip(self, v: u32)
        ensures
            Self::spec_try_from(self.spec_value()) == Some(self),
            Self::spec_try_from(v) matches Some(x) ==> x.spec_value() == v,
    {
        reveal(Timing::spec_try_from);
    }
}

/// Card types.
#[derive(Copy, Clone, Debug, PartialEq, Eq, Structural)]
pub enum Type {
    Monster,
    Spell,
    Trap,
    Normal,
    Effect,
    Fusion,
    Ritual,
    Trapmonster,
    Spirit,
    Union,
    Dual,
    Tuner,
    Synchro,
    Token,
    Quickplay,
    Continuous,
    Equip,
    Field,
    Counter,
    Flip,
    Toon,
    Xyz,
    Pendulum,
    Spsummon,
    Link,
}

impl Type {
    /// The number that stands for this value on the wire.
    pub open spec fn spec_value(self) -> u32 {
        match self {
            Type::Monster => 1,
            Type::Spell => 2,
            Type::Trap => 4,
            Type::Normal => 16,
            Type::Effect => 32,
            Type::Fusion => 64,
            Type::Ritual => 128,
            Type::Trapmonster => 256,
            Type::Spirit => 512,
            Type::Union => 1024,
            Type::Dual => 2048,
            Type::Tuner => 4096,
            Type::Synchro => 8192,
            Type::Token => 16384,
            Type::Quickplay => 65536,
            Type::Continuous => 131072,
            Type::Equip => 262144,
            Type::Field => 524288,
            Type::Counter => 1048576,
            Type::Flip => 2097152,
            Type::Toon => 4194304,
            Type::Xyz => 8388608,
            Type::Pendulum => 16777216,
            Type::Spsummon => 33554432,
            Type::Link => 67108864,
        }
    }

    /// The value that a wire number stands for, if any.
    #[verifier::opaque]
    pub open spec fn spec_try_from(v: u32) -> Option<Type> {
        if v == 1 { Some(Type::Monster) } else if v == 2 { Some(Type::Spell) } else if v == 4 { Some(Type::Trap) } else
        if v == 16 { Some(Type::Normal) } else if v == 32 { Some(Type::Effect) } else if v == 64 { Some(Type::Fusion) } else
        if v == 128 { Some(Type::Ritual) } else if v == 256 { Some(Type::Trapmonster) } else
        if v == 512 { Some(Type::Spirit) } else if v == 1024 { Some(Type::Union) } else if v == 2048 { Some(Type::Dual) } else
        if v == 4096 { Some(Type::Tuner) } else if v == 8192 { Some(Type::Synchro) } else if v == 16384 { Some(Type::Token) } else
        if v == 65536 { Some(Type::Quickplay) } else if v == 131072 { Some(Type::Continuous) } else
        if v == 262144 { Some(Type::Equip) } else if v == 524288 { Some(Type::Field) } else
        if v == 1048576 { Some(Type::Counter) } else if v == 2097152 { Some(Type::Flip) } else
        if v == 4194304 { Some(Type::Toon) } else if v == 8388608 { Some(Type::Xyz) } else
        if v == 16777216 { Some(Type::Pendulum) } else if v == 33554432 { Some(Type::Spsummon) } else
        if v == 67108864 { Some(Type::Link) } else { None }
    }

    pub fn into_u32(self) -> (r: u32)
        ensures
            r == self.spec_value(),
    {
        match self {
            Type::Monster => 1,
            Type::Spell => 2,
            Type::Trap => 4,
            Type::Normal => 16,
            Type::Effect => 32,
            Type::Fusion => 64,
            Type::Ritual => 128,
            Type::Trapmonster => 256,
            Type::Spirit => 512,
            Type::Union => 1024,
            Type::Dual => 2048,
            Type::Tuner => 4096,
            Type::Synchro => 8192,
            Type::Token => 16384,
            Type::Quickplay => 65536,
            Type::Continuous => 131072,
            Type::Equip => 262144,
            Type::Field => 524288,
            Type::Counter => 1048576,
            Type::Flip => 2097152,
            Type::Toon => 4194304,
            Type::Xyz => 8388608,
            Type::Pendulum => 16777216,
            Type::Spsummon => 33554432,
            Type::Link => 67108864,
        }
    }

    pub fn try_from_u32(v: u32) -> (r: Option<Type>)
        ensures
            r == Self::spec_try_from(v),
    {
        proof { reveal(Type::spec_try_from); }
        if v == 1 { return Some(Type::Monster); }
        if v == 2 { return Some(Type::Spell); }
        if v == 4 { return Some(Type::Trap); }
        if v == 16 { return Some(Type::Normal); }
        if v == 32 { return Some(Type::Effect); }
        if v == 64 { return Some(Type::Fusion); }
        if v == 128 { return Some(Type::Ritual); }
        if v == 256 { return Some(Type::Trapmonster); }
        if v == 512 { return Some(Type::Spirit); }
        if v == 1024 { return Some(Type::Union); }
        if v == 2048 { return Some(Type::Dual); }
        if v == 4096 { return Some(Type::Tuner); }
        if v == 8192 { return Some(Type::Synchro); }
        if v == 16384 { return Some(Type::Token); }
        if v == 65536 { return Some(Type::Quickplay); }
        if v == 131072 { return Some(Type::Continuous); }
        if v == 262144 { return Some(Type::Equip); }
        if v == 524288 { return Some(Type::Field); }
        if v == 1048576 { return Some(Type::Counter); }
        if v == 2097152 { return Some(Type::Flip); }
        if v == 4194304 { return Some(Type::Toon); }
        if v == 8388608 { return Some(Type::Xyz); }
        if v == 16777216 { return Some(Type::Pendulum); }
        if v == 33554432 { return Some(Type::Spsummon); }
        if v == 67108864 { return Some(Type::Link); }
        None
    }

    /// Every value survives the trip through its number, and every number
    /// that stands for a value is that value's number.
    pub proof fn lemma_value_roundtrip(self, v: u32)
        ensures
            Self::spec_try_from(self.spec_value()) == Some(self),
            Self::spec_try_from(v) matches Some(x) ==> x.spec_value() == v,
    {
        reveal(Type::spec_try_from);
    }
}

/// Monster races.
#[derive(Copy, Clone, Debug, PartialEq, Eq, Structural)]
pub enum Race {
    Warrior,
    Spellcaster,
    Fairy,
    Fiend,
    Zombie,
    Machine,
    Aqua,
    Pyro,
    Rock,
    Windbeast,
    Plant,
    Insect,
    Thunder,
    Dragon,
    Beast,
    Beastwarrior,
    Dinosaur,
    Fish,
    Seaserpent,
    Reptile,
    Psycho,
    Devine,
    Creatorgod,
    Wyrm,
    Cybers,
}

impl Race {
    /// The number that stands for this value on the wire.
    pub open spec fn spec_value(self) -> u32 {
        match self {
            Race::Warrior => 1,
            Race::Spellcaster => 2,
            Race::Fairy => 4,
            Race::Fiend => 8,
            Race::Zombie => 16,
            Race::Machine => 32,
            Race::Aqua => 64,
            Race::Pyro => 128,
            Race::Rock => 256,
            Race::Windbeast => 512,
            Race::Plant => 1024,
            Race::Insect => 2048,
            Race::Thunder => 4096,
            Race::Dragon => 8192,
            Race::Beast => 16384,
            Race::Beastwarrior => 32768,
            Race::Dinosaur => 65536,
            Race::Fish => 131072,
            Race::Seaserpent => 262144,
            Race::Reptile => 524288,
            Race::Psycho => 1048576,
            Race::Devine => 2097152,
            Race::Creatorgod => 4194304,
            Race::Wyrm => 8388608,
            Race::Cybers => 16777216,
        }
    }

    /// The value that a wire number stands for, if any.
    #[verifier::opaque]
    pub open spec fn spec_try_from(v: u32) -> Option<Race> {
        if v == 1 { Some(Race::Warrior) } else if v == 2 { Some(Race::Spellcaster) } else if v == 4 { Some(Race::Fairy) } else
        if v == 8 { Some(Race::Fiend) } else if v == 16 { Some(Race::Zombie) } else if v == 32 { Some(Race::Machine) } else
        if v == 64 { Some(Race::Aqua) } else if v == 128 { Some(Race::Pyro) } else if v == 256 { Some(Race::Rock) } else
        if v == 512 { Some(Race::Windbeast) } else if v == 1024 { Some(Race::Plant) } else
        if v == 2048 { Some(Race::Insect) } else if v == 4096 { Some(Race::Thunder) } else
        if v == 8192 { Some(Race::Dragon) } else if v == 16384 { Some(Race::Beast) } else if v == 32768 { Some(Race::Beastwarrior) } else
        if v == 65536 { Some(Race::Dinosaur) } else if v == 131072 { Some(Race::Fish) } else
        if v == 262144 { Some(Race::Seaserpent) } else if v == 524288 { Some(Race::Reptile) } else
        if v == 1048576 { Some(Race::Psycho) } else if v == 2097152 { Some(Race::Devine) } else
        if v == 4194304 { Some(Race::Creatorgod) } else if v == 8388608 { Some(Race::Wyrm) } else
        if v == 16777216 { Some(Race::Cybers) } else { None }
    }

    pub fn into_u32(self) -> (r: u32)
        ensures
            r == self.spec_value(),
    {
        match self {
            Race::Warrior => 1,
            Race::Spellcaster => 2,
            Race::Fairy => 4,
            Race::Fiend => 8,
            Race::Zombie => 16,
            Race::Machine => 32,
            Race::Aqua => 64,
            Race::Pyro => 128,
            Race::Rock => 256,
            Race::Windbeast => 512,
            Race::Plant => 1024,
            Race::Insect => 2048,
            Race::Thunder => 4096,
            Race::Dragon => 8192,
            Race::Beast => 16384,
            Race::Beastwarrior => 32768,
            Race::Dinosaur => 65536,
            Race::Fish => 131072,
            Race::Seaserpent => 262144,
            Race::Reptile => 524288,
            Race::Psycho => 1048576,
            Race::Devine => 2097152,
            Race::Creatorgod => 4194304,
            Race::Wyrm => 8388608,
            Race::Cybers => 16777216,
        }
    }

    pub fn try_from_u32(v: u32) -> (r: Option<Race>)
        ensures
            r == Self::spec_try_from(v),
    {
        proof { reveal(Race::spec_try_from); }
        if v == 1 { return Some(Race::Warrior); }
        if v == 2 { return Some(Race::Spellcaster); }
        if v == 4 { return Some(Race::Fairy); }
        if v == 8 { return Some(Race::Fiend); }
        if v == 16 { return Some(Race::Zombie); }
        if v == 32 { return Some(Race::Machine); }
        if v == 64 { return Some(Race::Aqua); }
        if v == 128 { return Some(Race::Pyro); }
        if v == 256 { return Some(Race::Rock); }
        if v == 512 { return Some(Race::Windbeast); }
        if v == 1024 { return Some(Race::Plant); }
        if v == 2048 { return Some(Race::Insect); }
        if v == 4096 { return Some(Race::Thunder); }
        if v == 8192 { return Some(Race::Dragon); }
        if v == 16384 { return Some(Race::Beast); }
        if v == 32768 { return Some(Race::Beastwarrior); }
        if v == 65536 { return Some(Race::Dinosaur); }
        if v == 131072 { return Some(Race::Fish); }
        if v == 262144 { return Some(Race::Seaserpent); }
        if v == 524288 { return Some(Race::Reptile); }
        if v == 1048576 { return Some(Race::Psycho); }
        if v == 2097152 { return Some(Race::Devine); }
        if v == 4194304 { return Some(Race::Creatorgod); }
        if v == 8388608 { return Some(Race::Wyrm); }
        if v == 16777216 { return Some(Race::Cybers); }
        None
    }

    /// Every value survives the trip through its number, and every number
    /// that stands for a value is that value's number.
    pub proof fn lemma_value_roundtrip(self, v: u32)
        ensures
            Self::spec_try_from(self.spec_value()) == Some(self),
            Self::spec_try_from(v) matches Some(x) ==> x.spec_value() == v,
    {
        reveal(Race::spec_try_from);
    }
}

/// Reasons for which a card moved.
#[derive(Copy, Clone, Debug, PartialEq, Eq, Structural)]
pub enum Reason {
    Destroy,
    Release,
    Temporary,
    Material,
    Summon,
    Battle,
    Effect,
    Cost,
    Adjust,
    LostTarget,
    Rule,
    Spsummon,
    Dissummon,
    Flip,
    Discard,
    Rdamage,
    Rrecover,
    Return,
    Fusion,
    Synchro,
    Ritual,
    Xyz,
    Replace,
    Draw,
    Redirect,
    Reveal,
    Link,
    LostOverlay,
}

impl Reason {
    /// The number that stands for this value on the wire.
    pub open spec fn spec_value(self) -> u32 {
        match self {
            Reason::Destroy => 1,
            Reason::Release => 2,
            Reason::Temporary => 4,
            Reason::Material => 8,
            Reason::Summon => 16,
            Reason::Battle => 32,
            Reason::Effect => 64,
            Reason::Cost => 128,
            Reason::Adjust => 256,
            Reason::LostTarget => 512,
            Reason::Rule => 1024,
            Reason::Spsummon => 2048,
            Reason::Dissummon => 4096,
            Reason::Flip => 8192,
            Reason::Discard => 16384,
            Reason::Rdamage => 32768,
            Reason::Rrecover => 65536,
            Reason::Return => 131072,
            Reason::Fusion => 262144,
            Reason::Synchro => 524288,
            Reason::Ritual => 1048576,
            Reason::Xyz => 2097152,
            Reason::Replace => 16777216,
            Reason::Draw => 33554432,
            Reason::Redirect => 67108864,
            Reason::Reveal => 134217728,
            Reason::Link => 268435456,
            Reason::LostOverlay => 536870912,
        }
    }

    /// The value that a wire number stands for, if any.
    #[verifier::opaque]
    pub open spec fn spec_try_from(v: u32) -> Option<Reason> {
        if v == 1 { Some(Reason::Destroy) } else if v == 2 { Some(Reason::Release) } else if v == 4 { Some(Reason::Temporary) } else
        if v == 8 { Some(Reason::Material) } else if v == 16 { Some(Reason::Summon) } else
        if v == 32 { Some(Reason::Battle) } else if v == 64 { Some(Reason::Effect) } else if v == 128 { Some(Reason::Cost) } else
        if v == 256 { Some(Reason::Adjust) } else if v == 512 { Some(Reason::LostTarget) } else
        if v == 1024 { Some(Reason::Rule) } else if v == 2048 { Some(Reason::Spsummon) } else
        if v == 4096 { Some(Reason::Dissummon) } else if v == 8192 { Some(Reason::Flip) } else
        if v == 16384 { Some(Reason::Discard) } else if v == 32768 { Some(Reason::Rdamage) } else
        if v == 65536 { Some(Reason::Rrecover) } else if v == 131072 { Some(Reason::Return) } else
        if v == 262144 { Some(Reason::Fusion) } else if v == 524288 { Some(Reason::Synchro) } else
        if v == 1048576 { Some(Reason::Ritual) } else if v == 2097152 { Some(Reason::Xyz) } else
        if v == 16777216 { Some(Reason::Replace) } else if v == 33554432 { Some(Reason::Draw) } else
        if v == 67108864 { Some(Reason::Redirect) } else if v == 134217728 { Some(Reason::Reveal) } else
        if v == 268435456 { Some(Reason::Link) } else if v == 536870912 { Some(Reason::LostOverlay) } else
        { None }
    }

    pub fn into_u32(self) -> (r: u32)
        ensures
            r == self.spec_value(),
    {
        match self {
            Reason::Destroy => 1,
            Reason::Release => 2,
            Reason::Temporary => 4,
            Reason::Material => 8,
            Reason::Summon => 16,
            Reason::Battle => 32,
            Reason::Effect => 64,
            Reason::Cost => 128,
            Reason::Adjust => 256,
            Reason::LostTarget => 512,
            Reason::Rule => 1024,
            Reason::Spsummon => 2048,
            Reason::Dissummon => 4096,
            Reason::Flip => 8192,
            Reason::Discard => 16384,
            Reason::Rdamage => 32768,
            Reason::Rrecover => 65536,
            Reason::Return => 131072,
            Reason::Fusion => 262144,
            Reason::Synchro => 524288,
            Reason::Ritual => 1048576,
            Reason::Xyz => 2097152,
            Reason::Replace => 16777216,
            Reason::Draw => 33554432,
            Reason::Redirect => 67108864,
            Reason::Reveal => 134217728,
            Reason::Link => 268435456,
            Reason::LostOverlay => 536870912,
        }
    }

    pub fn try_from_u32(v: u32) -> (r: Option<Reason>)
        ensures
            r == Self::spec_try_from(v),
    {
        proof { reveal(Reason::spec_try_from); }
        if v == 1 { return Some(Reason::Destroy); }
        if v == 2 { return Some(Reason::Release); }
        if v == 4 { return Some(Reason::Temporary); }
        if v == 8 { return Some(Reason::Material); }
        if v == 16 { return Some(Reason::Summon); }
        if v == 32 { return Some(Reason::Battle); }
        if v == 64 { return Some(Reason::Effect); }
        if v == 128 { return Some(Reason::Cost); }
        if v == 256 { return Some(Reason::Adjust); }
        if v == 512 { return Some(Reason::LostTarget); }
        if v == 1024 { return Some(Reason::Rule); }
        if v == 2048 { return Some(Reason::Spsummon); }
        if v == 4096 { return Some(Reason::Dissummon); }
        if v == 8192 { return Some(Reason::Flip); }
        if v == 16384 { return Some(Reason::Discard); }
        if v == 32768 { return Some(Reason::Rdamage); }
        if v == 65536 { return Some(Reason::Rrecover); }
        if v == 131072 { return Some(Reason::Return); }
        if v == 262144 { return Some(Reason::Fusion); }
        if v == 524288 { return Some(Reason::Synchro); }
        if v == 1048576 { return Some(Reason::Ritual); }
        if v == 2097152 { return Some(Reason::Xyz); }
        if v == 16777216 { return Some(Reason::Replace); }
        if v == 33554432 { return Some(Reason::Draw); }
        if v == 67108864 { return Some(Reason::Redirect); }
        if v == 134217728 { return Some(Reason::Reveal); }
        if v == 268435456 { return Some(Reason::Link); }
        if v == 536870912 { return Some(Reason::LostOverlay); }
        None
    }

    /// Every value survives the trip through its number, and every number
    /// that stands for a value is that value's number.
    pub proof fn lemma_value_roundtrip(self, v: u32)
        ensures
            Self::spec_try_from(self.spec_value()) == Some(self),
            Self::spec_try_from(v) matches Some(x) ==> x.spec_value() == v,
    {
        reveal(Reason::spec_try_from);
    }
}

/// Card status flags.
#[derive(Copy, Clone, Debug, PartialEq, Eq, Structural)]
pub enum Status {
    Disabled,
    ToEnable,
    ToDisable,
    ProcComplete,
    SetTurn,
    NoLevel,
    BattleResult,
    SpsummonStep,
    FormChanged,
    Summoning,
    EffectEnabled,
    SummonTurn,
    DestroyConfirmed,
    LeaveConfirmed,
    BattleDestroyed,
    CopyingEffect,
    Chaining,
    SummonDisabled,
    ActivateDisabled,
    EffectReplaced,
    FutureFusion,
    AttackCanceled,
    Initializing,
    Activated,
    JustPos,
    ContinuousPos,
    Forbidden,
    ActFromHand,
    OppoBattle,
    FlipSummonTurn,
    SpsummonTurn,
}

impl Status {
    /// The number that stands for this value on the wire.
    pub open spec fn spec_value(self) -> u32 {
        match self {
            Status::Disabled => 1,
            Status::ToEnable => 2,
            Status::ToDisable => 4,
            Status::ProcComplete => 8,
            Status::SetTurn => 16,
            Status::NoLevel => 32,
            Status::BattleResult => 64,
            Status::SpsummonStep => 128,
            Status::FormChanged => 256,
            Status::Summoning => 512,
            Status::EffectEnabled => 1024,
            Status::SummonTurn => 2048,
            Status::DestroyConfirmed => 4096,
            Status::LeaveConfirmed => 8192,
            Status::BattleDestroyed => 16384,
            Status::CopyingEffect => 32768,
            Status::Chaining => 65536,
            Status::SummonDisabled => 131072,
            Status::ActivateDisabled => 262144,
            Status::EffectReplaced => 524288,
            Status::FutureFusion => 1048576,
            Status::AttackCanceled => 2097152,
            Status::Initializing => 4194304,
            Status::Activated => 8388608,
            Status::JustPos => 16777216,
            Status::ContinuousPos => 33554432,
            Status::Forbidden => 67108864,
            Status::ActFromHand => 134217728,
            Status::OppoBattle => 268435456,
            Status::FlipSummonTurn => 536870912,
            Status::SpsummonTurn => 1073741824,
        }
    }

    /// The value that a wire number stands for, if any.
    #[verifier::opaque]
    pub open spec fn spec_try_from(v: u32) -> Option<Status> {
        if v == 1 { Some(Status::Disabled) } else if v == 2 { Some(Status::ToEnable) } else
        if v == 4 { Some(Status::ToDisable) } else if v == 8 { Some(Status::ProcComplete) } else
        if v == 16 { Some(Status::SetTurn) } else if v == 32 { Some(Status::NoLevel) } else
        if v == 64 { Some(Status::BattleResult) } else if v == 128 { Some(Status::SpsummonStep) } else
        if v == 256 { Some(Status::FormChanged) } else if v == 512 { Some(Status::Summoning) } else
        if v == 1024 { Some(Status::EffectEnabled) } else if v == 2048 { Some(Status::SummonTurn) } else
        if v == 4096 { Some(Status::DestroyConfirmed) } else if v == 8192 { Some(Status::LeaveConfirmed) } else
        if v == 16384 { Some(Status::BattleDestroyed) } else if v == 32768 { Some(Status::CopyingEffect) } else
        if v == 65536 { Some(Status::Chaining) } else if v == 131072 { Some(Status::SummonDisabled) } else
        if v == 262144 { Some(Status::ActivateDisabled) } else if v == 524288 { Some(Status::EffectReplaced) } else
        if v == 1048576 { Some(Status::FutureFusion) } else if v == 2097152 { Some(Status::AttackCanceled) } else
        if v == 4194304 { Some(Status::Initializing) } else if v == 8388608 { Some(Status::Activated) } else
        if v == 16777216 { Some(Status::JustPos) } else if v == 33554432 { Some(Status::ContinuousPos) } else
        if v == 67108864 { Some(Status::Forbidden) } else if v == 134217728 { Some(Status::ActFromHand) } else
        if v == 268435456 { Some(Status::OppoBattle) } else if v == 536870912 { Some(Status::FlipSummonTurn) } else
        if v == 1073741824 { Some(Status::SpsummonTurn) } else { None }
    }

    pub fn into_u32(self) -> (r: u32)
        ensures
            r == self.spec_value(),
    {
        match self {
            Status::Disabled => 1,
            Status::ToEnable => 2,
            Status::ToDisable => 4,
            Status::ProcComplete => 8,
            Status::SetTurn => 16,
            Status::NoLevel => 32,
            Status::BattleResult => 64,
            Status::SpsummonStep => 128,
            Status::FormChanged => 256,
            Status::Summoning => 512,
            Status::EffectEnabled => 1024,
            Status::SummonTurn => 2048,
            Status::DestroyConfirmed => 4096,
            Status::LeaveConfirmed => 8192,
            Status::BattleDestroyed => 16384,
            Status::CopyingEffect => 32768,
            Status::Chaining => 65536,
            Status::SummonDisabled => 131072,
            Status::ActivateDisabled => 262144,
            Status::EffectReplaced => 524288,
            Status::FutureFusion => 1048576,
            Status::AttackCanceled => 2097152,
            Status::Initializing => 4194304,
            Status::Activated => 8388608,
            Status::JustPos => 16777216,
            Status::ContinuousPos => 33554432,
            Status::Forbidden => 67108864,
            Status::ActFromHand => 134217728,
            Status::OppoBattle => 268435456,
            Status::FlipSummonTurn => 536870912,
            Status::SpsummonTurn => 1073741824,
        }
    }

    pub fn try_from_u32(v: u32) -> (r: Option<Status>)
        ensures
            r == Self::spec_try_from(v),
    {
        proof { reveal(Status::spec_try_from); }
        if v == 1 { return Some(Status::Disabled); }
        if v == 2 { return Some(Status::ToEnable); }
        if v == 4 { return Some(Status::ToDisable); }
        if v == 8 { return Some(Status::ProcComplete); }
        if v == 16 { return Some(Status::SetTurn); }
        if v == 32 { return Some(Status::NoLevel); }
        if v == 64 { return Some(Status::BattleResult); }
        if v == 128 { return Some(Status::SpsummonStep); }
        if v == 256 { return Some(Status::FormChanged); }
        if v == 512 { return Some(Status::Summoning); }
        if v == 1024 { return Some(Status::EffectEnabled); }
        if v == 2048 { return Some(Status::SummonTurn); }
        if v == 4096 { return Some(Status::DestroyConfirmed); }
        if v == 8192 { return Some(Status::LeaveConfirmed); }
        if v == 16384 { return Some(Status::BattleDestroyed); }
        if v == 32768 { return Some(Status::CopyingEffect); }
        if v == 65536 { return Some(Status::Chaining); }
        if v == 131072 { return Some(Status::SummonDisabled); }
        if v == 262144 { return Some(Status::ActivateDisabled); }
        if v == 524288 { return Some(Status::EffectReplaced); }
        if v == 1048576 { return Some(Status::FutureFusion); }
        if v == 2097152 { return Some(Status::AttackCanceled); }
        if v == 4194304 { return Some(Status::Initializing); }
        if v == 8388608 { return Some(Status::Activated); }
        if v == 16777216 { return Some(Status::JustPos); }
        if v == 33554432 { return Some(Status::ContinuousPos); }
        if v == 67108864 { return Some(Status::Forbidden); }
        if v == 134217728 { return Some(Status::ActFromHand); }
        if v == 268435456 { return Some(Status::OppoBattle); }
        if v == 536870912 { return Some(Status::FlipSummonTurn); }
        if v == 1073741824 { return Some(Status::SpsummonTurn); }
        None
    }

    /// Every value survives the trip through its number, and every number
    /// that stands for a value is that value's number.
    pub proof fn lemma_value_roundtrip(self, v: u32)
        ensures
            Self::spec_try_from(self.spec_value()) == Some(self),
            Self::spec_try_from(v) matches Some(x) ==> x.spec_value() == v,
    {
        reveal(Status::spec_try_from);
    }
}

/// Fields that a card query asks for.
#[derive(Copy, Clone, Debug, PartialEq, Eq, Structural)]
pub enum Query {
    Code,
    Position,
    Alias,
    Type,
    Level,
    Rank,
    Attribute,
    Race,
    Attack,
    Defense,
    BaseAttack,
    BaseDefense,
    Reason,
    ReasonCard,
    EquipCard,
    TargetCard,
    OverlayCard,
    Counters,
    Owner,
    Status,
    Lscale,
    Rscale,
    Link,
}

impl Query {
    /// The number that stands for this value on the wire.
    pub open spec fn spec_value(self) -> u32 {
        match self {
            Query::Code => 1,
            Query::Position => 2,
            Query::Alias => 4,
            Query::Type => 8,
            Query::Level => 16,
            Query::Rank => 32,
            Query::Attribute => 64,
            Query::Race => 128,
            Query::Attack => 256,
            Query::Defense => 512,
            Query::BaseAttack => 1024,
            Query::BaseDefense => 2048,
            Query::Reason => 4096,
            Query::ReasonCard => 8192,
            Query::EquipCard => 16384,
            Query::TargetCard => 32768,
            Query::OverlayCard => 65536,
            Query::Counters => 131072,
            Query::Owner => 262144,
            Query::Status => 524288,
            Query::Lscale => 2097152,
            Query::Rscale => 4194304,
            Query::Link => 8388608,
        }
    }

    /// The value that a wire number stands for, if any.
    #[verifier::opaque]
    pub open spec fn spec_try_from(v: u32) -> Option<Query> {
        if v == 1 { Some(Query::Code) } else if v == 2 { Some(Query::Position) } else if v == 4 { Some(Query::Alias) } else
        if v == 8 { Some(Query::Type) } else if v == 16 { Some(Query::Level) } else if v == 32 { Some(Query::Rank) } else
        if v == 64 { Some(Query::Attribute) } else if v == 128 { Some(Query::Race) } else if v == 256 { Some(Query::Attack) } else
        if v == 512 { Some(Query::Defense) } else if v == 1024 { Some(Query::BaseAttack) } else
        if v == 2048 { Some(Query::BaseDefense) } else if v == 4096 { Some(Query::Reason) } else
        if v == 8192 { Some(Query::ReasonCard) } else if v == 16384 { Some(Query::EquipCard) } else
        if v == 32768 { Some(Query::TargetCard) } else if v == 65536 { Some(Query::OverlayCard) } else
        if v == 131072 { Some(Query::Counters) } else if v == 262144 { Some(Query::Owner) } else
        if v == 524288 { Some(Query::Status) } else if v == 2097152 { Some(Query::Lscale) } else
        if v == 4194304 { Some(Query::Rscale) } else if v == 8388608 { Some(Query::Link) } else
        { None }
    }

    pub fn into_u32(self) -> (r: u32)
        ensures
            r == self.spec_value(),
    {
        match self {
            Query::Code => 1,
            Query::Position => 2,
            Query::Alias => 4,
            Query::Type => 8,
            Query::Level => 16,
            Query::Rank => 32,
            Query::Attribute => 64,
            Query::Race => 128,
            Query::Attack => 256,
            Query::Defense => 512,
            Query::BaseAttack => 1024,
            Query::BaseDefense => 2048,
            Query::Reason => 4096,
            Query::ReasonCard => 8192,
            Query::EquipCard => 16384,
            Query::TargetCard => 32768,
            Query::OverlayCard => 65536,
            Query::Counters => 131072,
            Query::Owner => 262144,
            Query::Status => 524288,
            Query::Lscale => 2097152,
            Query::Rscale => 4194304,
            Query::Link => 8388608,
        }
    }

    pub fn try_from_u32(v: u32) -> (r: Option<Query>)
        ensures
            r == Self::spec_try_from(v),
    {
        proof { reveal(Query::spec_try_from); }
        if v == 1 { return Some(Query::Code); }
        if v == 2 { return Some(Query::Position); }
        if v == 4 { return Some(Query::Alias); }
        if v == 8 { return Some(Query::Type); }
        if v == 16 { return Some(Query::Level); }
        if v == 32 { return Some(Query::Rank); }
        if v == 64 { return Some(Query::Attribute); }
        if v == 128 { return Some(Query::Race); }
        if v == 256 { return Some(Query::Attack); }
        if v == 512 { return Some(Query::Defense); }
        if v == 1024 { return Some(Query::BaseAttack); }
        if v == 2048 { return Some(Query::BaseDefense); }
        if v == 4096 { return Some(Query::Reason); }
        if v == 8192 { return Some(Query::ReasonCard); }
        if v == 16384 { return Some(Query::EquipCard); }
        if v == 32768 { return Some(Query::TargetCard); }
        if v == 65536 { return Some(Query::OverlayCard); }
        if v == 131072 { return Some(Query::Counters); }
        if v == 262144 { return Some(Query::Owner); }
        if v == 524288 { return Some(Query::Status); }
        if v == 2097152 { return Some(Query::Lscale); }
        if v == 4194304 { return Some(Query::Rscale); }
        if v == 8388608 { return Some(Query::Link); }
        None
    }

    /// Every value survives the trip through its number, and every number
    /// that stands for a value is that value's number.
    pub proof fn lemma_value_roundtrip(self, v: u32)
        ensures
            Self::spec_try_from(self.spec_value()) == Some(self),
            Self::spec_try_from(v) matches Some(x) ==> x.spec_value() == v,
    {
        reveal(Query::spec_try_from);
    }
}

/// Monster attributes.
#[derive(Copy, Clone, Debug, PartialEq, Eq, Structural)]
pub enum Attribute {
    Earth,
    Water,
    Fire,
    Wind,
    Light,
    Dark,
    Devine,
}

impl Attribute {
    /// The number that stands for this value on the wire.
    pub open spec fn spec_value(self) -> u32 {
        match self {
            Attribute::Earth => 1,
            Attribute::Water => 2,
            Attribute::Fire => 4,
            Attribute::Wind => 8,
            Attribute::Light => 16,
            Attribute::Dark => 32,
            Attribute::Devine => 64,
        }
    }

    /// The value that a wire number stands for, if any.
    #[verifier::opaque]
    pub open spec fn spec_try_from(v: u32) -> Option<Attribute> {
        if v == 1 { Some(Attribute::Earth) } else if v == 2 { Some(Attribute::Water) } else
        if v == 4 { Some(Attribute::Fire) } else if v == 8 { Some(Attribute::Wind) } else if v == 16 { Some(Attribute::Light) } else
        if v == 32 { Some(Attribute::Dark) } else if v == 64 { Some(Attribute::Devine) } else
        { None }
    }

    pub fn into_u32(self) -> (r: u32)
        ensures
            r == self.spec_value(),
    {
        match self {
            Attribute::Earth => 1,
            Attribute::Water => 2,
            Attribute::Fire => 4,
            Attribute::Wind => 8,
            Attribute::Light => 16,
            Attribute::Dark => 32,
            Attribute::Devine => 64,
        }
    }

    pub fn try_from_u32(v: u32) -> (r: Option<Attribute>)
        ensures
            r == Self::spec_try_from(v),
    {
        proof { reveal(Attribute::spec_try_from); }
        if v == 1 { return Some(Attribute::Earth); }
        if v == 2 { return Some(Attribute::Water); }
        if v == 4 { return Some(Attribute::Fire); }
        if v == 8 { return Some(Attribute::Wind); }
        if v == 16 { return Some(Attribute::Light); }
        if v == 32 { return Some(Attribute::Dark); }
        if v == 64 { return Some(Attribute::Devine); }
        None
    }

    /// Every value survives the trip through its number, and every number
    /// that stands for a value is that value's number.
    pub proof fn lemma_value_roundtrip(self, v: u32)
        ensures
            Self::spec_try_from(self.spec_value()) == Some(self),
            Self::spec_try_from(v) matches Some(x) ==> x.spec_value() == v,
    {
        reveal(Attribute::spec_try_from);
    }
}

/// Link arrows.
#[derive(Copy, Clone, Debug, PartialEq, Eq, Structural)]
pub enum Linkmarkers {
    BottomLeft,
    Bottom,
    BottomRight,
    Left,
    Right,
    TopLeft,
    Top,
    TopRight,
}

impl Linkmarkers {
    /// The number that stands for this value on the wire.
    pub open spec fn spec_value(self) -> u32 {
        match self {
            Linkmarkers::BottomLeft => 1,
            Linkmarkers::Bottom => 2,
            Linkmarkers::BottomRight => 4,
            Linkmarkers::Left => 8,
            Linkmarkers::Right => 32,
            Linkmarkers::TopLeft => 64,
            Linkmarkers::Top => 128,
            Linkmarkers::TopRight => 256,
        }
    }

    /// The value that a wire number stands for, if any.
    #[verifier::opaque]
    pub open spec fn spec_try_from(v: u32) -> Option<Linkmarkers> {
        if v == 1 { Some(Linkmarkers::BottomLeft) } else if v == 2 { Some(Linkmarkers::Bottom) } else
        if v == 4 { Some(Linkmarkers::BottomRight) } else if v == 8 { Some(Linkmarkers::Left) } else
        if v == 32 { Some(Linkmarkers::Right) } else if v == 64 { Some(Linkmarkers::TopLeft) } else
        if v == 128 { Some(Linkmarkers::Top) } else if v == 256 { Some(Linkmarkers::TopRight) } else
        { None }
    }

    pub fn into_u32(self) -> (r: u32)
        ensures
            r == self.spec_value(),
    {
        match self {
            Linkmarkers::BottomLeft => 1,
            Linkmarkers::Bottom => 2,
            Linkmarkers::BottomRight => 4,
            Linkmarkers::Left => 8,
            Linkmarkers::Right => 32,
            Linkmarkers::TopLeft => 64,
            Linkmarkers::Top => 128,
            Linkmarkers::TopRight => 256,
        }
    }

    pub fn try_from_u32(v: u32) -> (r: Option<Linkmarkers>)
        ensures
            r == Self::spec_try_from(v),
    {
        proof { reveal(Linkmarkers::spec_try_from); }
        if v == 1 { return Some(Linkmarkers::BottomLeft); }
        if v == 2 { return Some(Linkmarkers::Bottom); }
        if v == 4 { return Some(Linkmarkers::BottomRight); }
        if v == 8 { return Some(Linkmarkers::Left); }
        if v == 32 { return Some(Linkmarkers::Right); }
        if v == 64 { return Some(Linkmarkers::TopLeft); }
        if v == 128 { return Some(Linkmarkers::Top); }
        if v == 256 { return Some(Linkmarkers::TopRight); }
        None
    }

    /// Every value survives the trip through its number, and every number
    /// that stands for a value is that value's number.
    pub proof fn lemma_value_roundtrip(self, v: u32)
        ensures
            Self::spec_try_from(self.spec_value()) == Some(self),
            Self::spec_try_from(v) matches Some(x) ==> x.spec_value() == v,
    {
        reveal(Linkmarkers::spec_try_from);
    }
}

/// Stages of a duel as the engine counts them.
#[derive(Copy, Clone, Debug, PartialEq, Eq, Structural)]
pub enum Duelstage {
    Begin,
    Finger,
    Firstgo,
    Dueling,
    Siding,
    End,
}

impl Duelstage {
    /// The number that stands for this value on the wire.
    pub open spec fn spec_value(self) -> u8 {
        match self {
            Duelstage::Begin => 0,
            Duelstage::Finger => 1,
            Duelstage::Firstgo => 2,
            Duelstage::Dueling => 3,
            Duelstage::Siding => 4,
            Duelstage::End => 5,
        }
    }

    /// The value that a wire number stands for, if any.
    #[verifier::opaque]
    pub open spec fn spec_try_from(v: u8) -> Option<Duelstage> {
        if v == 0 { Some(Duelstage::Begin) } else if v == 1 { Some(Duelstage::Finger) } else
        if v == 2 { Some(Duelstage::Firstgo) } else if v == 3 { Some(Duelstage::Dueling) } else
        if v == 4 { Some(Duelstage::Siding) } else if v == 5 { Some(Duelstage::End) } else
        { None }
    }

    pub fn into_u8(self) -> (r: u8)
        ensures
            r == self.spec_value(),
    {
        match self {
            Duelstage::Begin => 0,
            Duelstage::Finger => 1,
            Duelstage::Firstgo => 2,
            Duelstage::Dueling => 3,
            Duelstage::Siding => 4,
            Duelstage::End => 5,
        }
    }

    pub fn try_from_u8(v: u8) -> (r: Option<Duelstage>)
        ensures
            r == Self::spec_try_from(v),
    {
        proof { reveal(Duelstage::spec_try_from); }
        if v == 0 { return Some(Duelstage::Begin); }
        if v == 1 { return Some(Duelstage::Finger); }
        if v == 2 { return Some(Duelstage::Firstgo); }
        if v == 3 { return Some(Duelstage::Dueling); }
        if v == 4 { return Some(Duelstage::Siding); }
        if v == 5 { return Some(Duelstage::End); }
        None
    }

    /// Every value survives the trip through its number, and every number
    /// that stands for a value is that value's number.
    pub proof fn lemma_value_roundtrip(self, v: u8)
        ensures
            Self::spec_try_from(self.spec_value()) == Some(self),
            Self::spec_try_from(v) matches Some(x) ==> x.spec_value() == v,
    {
        reveal(Duelstage::spec_try_from);
    }
}

/// Colours of chat lines.
#[derive(Copy, Clone, Debug, PartialEq, Eq, Structural)]
pub enum Colors {
    Observer,
    Lightblue,
    Red,
    Green,
    Blue,
    Babyblue,
    Pink,
    Yellow,
    White,
    Gray,
    Darkgray,
}

impl Colors {
    /// The number that stands for this value on the wire.
    pub open spec fn spec_value(self) -> u8 {
        match self {
            Colors::Observer => 7,
            Colors::Lightblue => 8,
            Colors::Red => 11,
            Colors::Green => 12,
            Colors::Blue => 13,
            Colors::Babyblue => 14,
            Colors::Pink => 15,
            Colors::Yellow => 16,
            Colors::White => 17,
            Colors::Gray => 18,
            Colors::Darkgray => 19,
        }
    }

    /// The value that a wire number stands for, if any.
    #[verifier::opaque]
    pub open spec fn spec_try_from(v: u8) -> Option<Colors> {
        if v == 7 { Some(Colors::Observer) } else if v == 8 { Some(Colors::Lightblue) } else
        if v == 11 { Some(Colors::Red) } else if v == 12 { Some(Colors::Green) } else if v == 13 { Some(Colors::Blue) } else
        if v == 14 { Some(Colors::Babyblue) } else if v == 15 { Some(Colors::Pink) } else if v == 16 { Some(Colors::Yellow) } else
        if v == 17 { Some(Colors::White) } else if v == 18 { Some(Colors::Gray) } else if v == 19 { Some(Colors::Darkgray) } else
        { None }
    }

    pub fn into_u8(self) -> (r: u8)
        ensures
            r == self.spec_value(),
    {
        match self {
            Colors::Observer => 7,
            Colors::Lightblue => 8,
            Colors::Red => 11,
            Colors::Green => 12,
            Colors::Blue => 13,
            Colors::Babyblue => 14,
            Colors::Pink => 15,
            Colors::Yellow => 16,
            Colors::White => 17,
            Colors::Gray => 18,
            Colors::Darkgray => 19,
        }
    }

    pub fn try_from_u8(v: u8) -> (r: Option<Colors>)
        ensures
            r == Self::spec_try_from(v),
    {
        proof { reveal(Colors::spec_try_from); }
        if v == 7 { return Some(Colors::Observer); }
        if v == 8 { return Some(Colors::Lightblue); }
        if v == 11 { return Some(Colors::Red); }
        if v == 12 { return Some(Colors::Green); }
        if v == 13 { return Some(Colors::Blue); }
        if v == 14 { return Some(Colors::Babyblue); }
        if v == 15 { return Some(Colors::Pink); }
        if v == 16 { return Some(Colors::Yellow); }
        if v == 17 { return Some(Colors::White); }
        if v == 18 { return Some(Colors::Gray); }
        if v == 19 { return Some(Colors::Darkgray); }
        None
    }

    /// Every value survives the trip through its number, and every number
    /// that stands for a value is that value's number.
    pub proof fn lemma_value_roundtrip(self, v: u8)
        ensures
            Self::spec_try_from(self.spec_value()) == Some(self),
            Self::spec_try_from(v) matches Some(x) ==> x.spec_value() == v,
    {
        reveal(Colors::spec_try_from);
    }
}

/// Kinds of hints.
#[derive(Copy, Clone, Debug, PartialEq, Eq, Structural)]
pub enum Hint {
    Event,
    Message,
    SelectMessage,
    Opselected,
    Effect,
    Race,
    Attribite,
    Code,
    Number,
    Card,
    Zone,
}

impl Hint {
    /// The number that stands for this value on the wire.
    pub open spec fn spec_value(self) -> u8 {
        match self {
            Hint::Event => 1,
            Hint::Message => 2,
            Hint::SelectMessage => 3,
            Hint::Opselected => 4,
            Hint::Effect => 5,
            Hint::Race => 6,
            Hint::Attribite => 7,
            Hint::Code => 8,
            Hint::Number => 9,
            Hint::Card => 10,
            Hint::Zone => 11,
        }
    }

    /// The value that a wire number stands for, if any.
    #[verifier::opaque]
    pub open spec fn spec_try_from(v: u8) -> Option<Hint> {
        if v == 1 { Some(Hint::Event) } else if v == 2 { Some(Hint::Message) } else if v == 3 { Some(Hint::SelectMessage) } else
        if v == 4 { Some(Hint::Opselected) } else if v == 5 { Some(Hint::Effect) } else if v == 6 { Some(Hint::Race) } else
        if v == 7 { Some(Hint::Attribite) } else if v == 8 { Some(Hint::Code) } else if v == 9 { Some(Hint::Number) } else
        if v == 10 { Some(Hint::Card) } else if v == 11 { Some(Hint::Zone) } else { None }
    }

    pub fn into_u8(self) -> (r: u8)
        ensures
            r == self.spec_value(),
    {
        match self {
            Hint::Event => 1,
            Hint::Message => 2,
            Hint::SelectMessage => 3,
            Hint::Opselected => 4,
            Hint::Effect => 5,
            Hint::Race => 6,
            Hint::Attribite => 7,
            Hint::Code => 8,
            Hint::Number => 9,
            Hint::Card => 10,
            Hint::Zone => 11,
        }
    }

    pub fn try_from_u8(v: u8) -> (r: Option<Hint>)
        ensures
            r == Self::spec_try_from(v),
    {
        proof { reveal(Hint::spec_try_from); }
        if v == 1 { return Some(Hint::Event); }
        if v == 2 { return Some(Hint::Message); }
        if v == 3 { return Some(Hint::SelectMessage); }
        if v == 4 { return Some(Hint::Opselected); }
        if v == 5 { return Some(Hint::Effect); }
        if v == 6 { return Some(Hint::Race); }
        if v == 7 { return Some(Hint::Attribite); }
        if v == 8 { return Some(Hint::Code); }
        if v == 9 { return Some(Hint::Number); }
        if v == 10 { return Some(Hint::Card); }
        if v == 11 { return Some(Hint::Zone); }
        None
    }

    /// Every value survives the trip through its number, and every number
    /// that stands for a value is that value's number.
    pub proof fn lemma_value_roundtrip(self, v: u8)
        ensures
            Self::spec_try_from(self.spec_value()) == Some(self),
            Self::spec_try_from(v) matches Some(x) ==> x.spec_value() == v,
    {
        reveal(Hint::spec_try_from);
    }
}

/// Turn phases.
#[derive(Copy, Clone, Debug, PartialEq, Eq, Structural)]
pub enum Phase {
    Draw,
    Standby,
    Main1,
    BattleStart,
    BattleStep,
    Damage,
    DamageCalculate,
    Battle,
    Main2,
    End,
}

impl Phase {
    /// The number that stands for this value on the wire.
    pub open spec fn spec_value(self) -> u32 {
        match self {
            Phase::Draw => 1,
            Phase::Standby => 2,
            Phase::Main1 => 4,
            Phase::BattleStart => 8,
            Phase::BattleStep => 16,
            Phase::Damage => 32,
            Phase::DamageCalculate => 64,
            Phase::Battle => 128,
            Phase::Main2 => 256,
            Phase::End => 512,
        }
    }

    /// The value that a wire number stands for, if any.
    #[verifier::opaque]
    pub open spec fn spec_try_from(v: u32) -> Option<Phase> {
        if v == 1 { Some(Phase::Draw) } else if v == 2 { Some(Phase::Standby) } else if v == 4 { Some(Phase::Main1) } else
        if v == 8 { Some(Phase::BattleStart) } else if v == 16 { Some(Phase::BattleStep) } else
        if v == 32 { Some(Phase::Damage) } else if v == 64 { Some(Phase::DamageCalculate) } else
        if v == 128 { Some(Phase::Battle) } else if v == 256 { Some(Phase::Main2) } else if v == 512 { Some(Phase::End) } else
        { None }
    }

    pub fn into_u32(self) -> (r: u32)
        ensures
            r == self.spec_value(),
    {
        match self {
            Phase::Draw => 1,
            Phase::Standby => 2,
            Phase::Main1 => 4,
            Phase::BattleStart => 8,
            Phase::BattleStep => 16,
            Phase::Damage => 32,
            Phase::DamageCalculate => 64,
            Phase::Battle => 128,
            Phase::Main2 => 256,
            Phase::End => 512,
        }
    }

    pub fn try_from_u32(v: u32) -> (r: Option<Phase>)
        ensures
            r == Self::spec_try_from(v),
    {
        proof { reveal(Phase::spec_try_from); }
        if v == 1 { return Some(Phase::Draw); }
        if v == 2 { return Some(Phase::Standby); }
        if v == 4 { return Some(Phase::Main1); }
        if v == 8 { return Some(Phase::BattleStart); }
        if v == 16 { return Some(Phase::BattleStep); }
        if v == 32 { return Some(Phase::Damage); }
        if v == 64 { return Some(Phase::DamageCalculate); }
        if v == 128 { return Some(Phase::Battle); }
        if v == 256 { return Some(Phase::Main2); }
        if v == 512 { return Some(Phase::End); }
        None
    }

    /// Every value survives the trip through its number, and every number
    /// that stands for a value is that value's number.
    pub proof fn lemma_value_roundtrip(self, v: u32)
        ensures
            Self::spec_try_from(self.spec_value()) == Some(self),
            Self::spec_try_from(v) matches Some(x) ==> x.spec_value() == v,
    {
        reveal(Phase::spec_try_from);
    }
}

/// The alias under which game message kinds are also known.
pub type GMMessageType = GameMessage;

impl Default for Netplayer {
    fn default() -> (r: Netplayer)
        ensures
            r == Netplayer::Observer,
    {
        Netplayer::Observer
    }
}

impl Default for Colors {
    fn default() -> (r: Colors)
        ensures
            r == Colors::Observer,
    {
        Colors::Observer
    }
}

impl GameMessage {
    /// The name of this value.
    pub open spec fn spec_name(self) -> Seq<char> {
        match self {
            GameMessage::Retry => "Retry"@,
            GameMessage::Hint => "Hint"@,
            GameMessage::Waiting => "Waiting"@,
            GameMessage::Start => "Start"@,
            GameMessage::Win => "Win"@,
            GameMessage::UpdateData => "UpdateData"@,
            GameMessage::UpdateCard => "UpdateCard"@,
            GameMessage::RequestDeck => "RequestDeck"@,
            GameMessage::SelectBattlecmd => "SelectBattlecmd"@,
            GameMessage::SelectIdlecmd => "SelectIdlecmd"@,
            GameMessage::SelectEffectyn => "SelectEffectyn"@,
            GameMessage::SelectYesno => "SelectYesno"@,
            GameMessage::SelectOption => "SelectOption"@,
            GameMessage::SelectCard => "SelectCard"@,
            GameMessage::SelectChain => "SelectChain"@,
            GameMessage::SelectPlace => "SelectPlace"@,
            GameMessage::SelectPosition => "SelectPosition"@,
            GameMessage::SelectTribute => "SelectTribute"@,
            GameMessage::SortChain => "SortChain"@,
            GameMessage::SelectCounter => "SelectCounter"@,
            GameMessage::SelectSum => "SelectSum"@,
            GameMessage::SelectDisfield => "SelectDisfield"@,
            GameMessage::SortCard => "SortCard"@,
            GameMessage::SelectUnselectCard => "SelectUnselectCard"@,
            GameMessage::ConfirmDecktop => "ConfirmDecktop"@,
            GameMessage::ConfirmCards => "ConfirmCards"@,
            GameMessage::ShuffleDeck => "ShuffleDeck"@,
            GameMessage::ShuffleHand => "ShuffleHand"@,
            GameMessage::RefreshDeck => "RefreshDeck"@,
            GameMessage::SwapGraveDeck => "SwapGraveDeck"@,
            GameMessage::ShuffleSetCard => "ShuffleSetCard"@,
            GameMessage::ReverseDeck => "ReverseDeck"@,
            GameMessage::DeckTop => "DeckTop"@,
            GameMessage::MsgShuffleExtra => "MsgShuffleExtra"@,
            GameMessage::NewTurn => "NewTurn"@,
            GameMessage::NewPhase => "NewPhase"@,
            GameMessage::ConfirmExtratop => "ConfirmExtratop"@,
            GameMessage::Move => "Move"@,
            GameMessage::PosChange => "PosChange"@,
            GameMessage::SetCard => "SetCard"@,
            GameMessage::Swap => "Swap"@,
            GameMessage::FieldDisabled => "FieldDisabled"@,
            GameMessage::Summoning => "Summoning"@,
            GameMessage::Summoned => "Summoned"@,
            GameMessage::Spsummoning => "Spsummoning"@,
            GameMessage::Spsummoned => "Spsummoned"@,
            GameMessage::Flipsummoning => "Flipsummoning"@,
            GameMessage::Flipsummoned => "Flipsummoned"@,
            GameMessage::Chaining => "Chaining"@,
            GameMessage::Chained => "Chained"@,
            GameMessage::ChainSolving => "ChainSolving"@,
            GameMessage::ChainSolved => "ChainSolved"@,
            GameMessage::ChainEnd => "ChainEnd"@,
            GameMessage::ChainNegated => "ChainNegated"@,
            GameMessage::ChainDisabled => "ChainDisabled"@,
            GameMessage::CardSelected => "CardSelected"@,
            GameMessage::RandomSelected => "RandomSelected"@,
            GameMessage::BecomeTarget => "BecomeTarget"@,
            GameMessage::Draw => "Draw"@,
            GameMessage::Damage => "Damage"@,
            GameMessage::Recover => "Recover"@,
            GameMessage::Equip => "Equip"@,
            GameMessage::Lpupdate => "Lpupdate"@,
            GameMessage::Unequip => "Unequip"@,
            GameMessage::CardTarget => "CardTarget"@,
            GameMessage::CancelTarget => "CancelTarget"@,
            GameMessage::PayLpcost => "PayLpcost"@,
            GameMessage::AddCounter => "AddCounter"@,
            GameMessage::RemoveCounter => "RemoveCounter"@,
            GameMessage::Attack => "Attack"@,
            GameMessage::Battle => "Battle"@,
            GameMessage::AttackDisabled => "AttackDisabled"@,
            GameMessage::DamageStepStart => "DamageStepStart"@,
            GameMessage::DamageStepEnd => "DamageStepEnd"@,
            GameMessage::MissedEffect => "MissedEffect"@,
            GameMessage::BeChainTarget => "BeChainTarget"@,
            GameMessage::CreateRelation => "CreateRelation"@,
            GameMessage::ReleaseRelation => "ReleaseRelation"@,
            GameMessage::TossCoin => "TossCoin"@,
            GameMessage::TossDice => "TossDice"@,
            GameMessage::RockPaperScissors => "RockPaperScissors"@,
            GameMessage::HandRes => "HandRes"@,
            GameMessage::AnnounceRace => "AnnounceRace"@,
            GameMessage::AnnounceAttrib => "AnnounceAttrib"@,
            GameMessage::AnnounceCard => "AnnounceCard"@,
            GameMessage::AnnounceNumber => "AnnounceNumber"@,
            GameMessage::CardHint => "CardHint"@,
            GameMessage::TagSwap => "TagSwap"@,
            GameMessage::ReloadField => "ReloadField"@,
            GameMessage::AiName => "AiName"@,
            GameMessage::ShowHint => "ShowHint"@,
            GameMessage::MatchKill => "MatchKill"@,
            GameMessage::CustomMsg => "CustomMsg"@,
        }
    }

    /// The name of this value.
    pub fn name(self) -> (r: &'static str)
        ensures
            r@ == self.spec_name(),
    {
        match self {
            GameMessage::Retry => "Retry",
            GameMessage::Hint => "Hint",
            GameMessage::Waiting => "Waiting",
            GameMessage::Start => "Start",
            GameMessage::Win => "Win",
            GameMessage::UpdateData => "UpdateData",
            GameMessage::UpdateCard => "UpdateCard",
            GameMessage::RequestDeck => "RequestDeck",
            GameMessage::SelectBattlecmd => "SelectBattlecmd",
            GameMessage::SelectIdlecmd => "SelectIdlecmd",
            GameMessage::SelectEffectyn => "SelectEffectyn",
            GameMessage::SelectYesno => "SelectYesno",
            GameMessage::SelectOption => "SelectOption",
            GameMessage::SelectCard => "SelectCard",
            GameMessage::SelectChain => "SelectChain",
            GameMessage::SelectPlace => "SelectPlace",
            GameMessage::SelectPosition => "SelectPosition",
            GameMessage::SelectTribute => "SelectTribute",
            GameMessage::SortChain => "SortChain",
            GameMessage::SelectCounter => "SelectCounter",
            GameMessage::SelectSum => "SelectSum",
            GameMessage::SelectDisfield => "SelectDisfield",
            GameMessage::SortCard => "SortCard",
            GameMessage::SelectUnselectCard => "SelectUnselectCard",
            GameMessage::ConfirmDecktop => "ConfirmDecktop",
            GameMessage::ConfirmCards => "ConfirmCards",
            GameMessage::ShuffleDeck => "ShuffleDeck",
            GameMessage::ShuffleHand => "ShuffleHand",
            GameMessage::RefreshDeck => "RefreshDeck",
            GameMessage::SwapGraveDeck => "SwapGraveDeck",
            GameMessage::ShuffleSetCard => "ShuffleSetCard",
            GameMessage::ReverseDeck => "ReverseDeck",
            GameMessage::DeckTop => "DeckTop",
            GameMessage::MsgShuffleExtra => "MsgShuffleExtra",
            GameMessage::NewTurn => "NewTurn",
            GameMessage::NewPhase => "NewPhase",
            GameMessage::ConfirmExtratop => "ConfirmExtratop",
            GameMessage::Move => "Move",
            GameMessage::PosChange => "PosChange",
            GameMessage::SetCard => "SetCard",
            GameMessage::Swap => "Swap",
            GameMessage::FieldDisabled => "FieldDisabled",
            GameMessage::Summoning => "Summoning",
            GameMessage::Summoned => "Summoned",
            GameMessage::Spsummoning => "Spsummoning",
            GameMessage::Spsummoned => "Spsummoned",
            GameMessage::Flipsummoning => "Flipsummoning",
            GameMessage::Flipsummoned => "Flipsummoned",
            GameMessage::Chaining => "Chaining",
            GameMessage::Chained => "Chained",
            GameMessage::ChainSolving => "ChainSolving",
            GameMessage::ChainSolved => "ChainSolved",
            GameMessage::ChainEnd => "ChainEnd",
            GameMessage::ChainNegated => "ChainNegated",
            GameMessage::ChainDisabled => "ChainDisabled",
            GameMessage::CardSelected => "CardSelected",
            GameMessage::RandomSelected => "RandomSelected",
            GameMessage::BecomeTarget => "BecomeTarget",
            GameMessage::Draw => "Draw",
            GameMessage::Damage => "Damage",
            GameMessage::Recover => "Recover",
            GameMessage::Equip => "Equip",
            GameMessage::Lpupdate => "Lpupdate",
            GameMessage::Unequip => "Unequip",
            GameMessage::CardTarget => "CardTarget",
            GameMessage::CancelTarget => "CancelTarget",
            GameMessage::PayLpcost => "PayLpcost",
            GameMessage::AddCounter => "AddCounter",
            GameMessage::RemoveCounter => "RemoveCounter",
            GameMessage::Attack => "Attack",
            GameMessage::Battle => "Battle",
            GameMessage::AttackDisabled => "AttackDisabled",
            GameMessage::DamageStepStart => "DamageStepStart",
            GameMessage::DamageStepEnd => "DamageStepEnd",
            GameMessage::MissedEffect => "MissedEffect",
            GameMessage::BeChainTarget => "BeChainTarget",
            GameMessage::CreateRelation => "CreateRelation",
            GameMessage::ReleaseRelation => "ReleaseRelation",
            GameMessage::TossCoin => "TossCoin",
            GameMessage::TossDice => "TossDice",
            GameMessage::RockPaperScissors => "RockPaperScissors",
            GameMessage::HandRes => "HandRes",
            GameMessage::AnnounceRace => "AnnounceRace",
            GameMessage::AnnounceAttrib => "AnnounceAttrib",
            GameMessage::AnnounceCard => "AnnounceCard",
            GameMessage::AnnounceNumber => "AnnounceNumber",
            GameMessage::CardHint => "CardHint",
            GameMessage::TagSwap => "TagSwap",
            GameMessage::ReloadField => "ReloadField",
            GameMessage::AiName => "AiName",
            GameMessage::ShowHint => "ShowHint",
            GameMessage::MatchKill => "MatchKill",
            GameMessage::CustomMsg => "CustomMsg",
        }
    }
}

} // verus!
