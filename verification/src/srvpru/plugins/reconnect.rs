//! Let a dropped player reconnect to the duel.
use vstd::prelude::*;

use crate::srvpru::plugins::PluginError;

use crate::srvpru::processor::{
    fresh_handler, spec_register, spec_register_dependencies, spec_register_handlers, strs,
    Handler, HandlerCondition, HandlerOccasion, HandlerView, Registry, RegistryView,
};
use crate::ygopro::message::{ctos, gm, stoc, srvpru, Direction, MessageType};
use crate::srvpru::plugins::stage_recorder::{spec_stage_after, DuelStage};
use crate::text::{push_str, string_of};
use crate::ygopro::constants::{Hint, Netplayer};
use crate::ygopro::message::string::{cast_to_fix_length_array, utf16_of};
use crate::ygopro::message::utils::Message;
use crate::ygopro::message::{HostInfo, HostInfoView, MessageSequence};

verus! {

/// The registry after the plugin loaded its configuration and registered
/// its handlers and dependencies; unchanged where its configuration was already
/// loaded, as a plugin starts once.
pub open spec fn spec_init(r: RegistryView) -> RegistryView {
    if r.configured.contains("reconnect"@) {
        r
    } else {
        let r0 = RegistryView { configured: r.configured.insert("reconnect"@), ..r };
        let r1 = spec_register_dependencies(r0, "reconnect"@, seq!["stage_recorder"@]);
        let r2 = spec_register(r1, fresh_handler(0, "reconnect_player_destroy_interceptor"@, HandlerOccasion::Before, HandlerCondition::MessageType(MessageType::SRVPRU(srvpru::MessageType::PlayerDestroy))));
        let r3 = spec_register(r2, fresh_handler(7, "reconnect_joingame_interceptor"@, HandlerOccasion::Before, HandlerCondition::MessageType(MessageType::CTOS(ctos::MessageType::JoinGame))));
        let r4 = spec_register(r3, (HandlerView { name: "reconnect_deck_recorder"@, ..fresh_handler(100, ""@, HandlerOccasion::Before, HandlerCondition::MessageType(MessageType::CTOS(ctos::MessageType::UpdateDeck))) }));
        let r5 = spec_register(r4, fresh_handler(100, "reconnect_cleanup"@, HandlerOccasion::After, HandlerCondition::MessageType(MessageType::STOC(stoc::MessageType::FieldFinish))));
        let r6 = spec_register(r5, (HandlerView { name: "reconnect_player_attachment_dropper"@, ..fresh_handler(100, ""@, HandlerOccasion::After, HandlerCondition::MessageType(MessageType::SRVPRU(srvpru::MessageType::PlayerDestroy))) }));
        let r7 = spec_register(r6, (HandlerView { name: "reconnect_ready_stopper"@, ..fresh_handler(100, ""@, HandlerOccasion::Before, HandlerCondition::MessageType(MessageType::CTOS(ctos::MessageType::HsReady))) }));
        let r8 = spec_register(r7, (HandlerView { name: "reconnect_gm_recorder"@, ..fresh_handler(100, ""@, HandlerOccasion::After, HandlerCondition::MessageType(MessageType::STOC(stoc::MessageType::GameMessage))) }));
        let r9 = spec_register(r8, (HandlerView { name: "reconnect_hint_recorder"@, ..fresh_handler(100, ""@, HandlerOccasion::After, HandlerCondition::MessageType(MessageType::GM(gm::MessageType::Hint))) }));
        let r10 = spec_register(r9, (HandlerView { name: "reconnect_room_attachment_dropper"@, ..fresh_handler(100, ""@, HandlerOccasion::After, HandlerCondition::MessageType(MessageType::SRVPRU(srvpru::MessageType::RoomDestroy))) }));
        let r11 = spec_register_handlers(r10, "reconnect"@, Direction::SRVPRU, seq!["reconnect_player_destroy_interceptor"@, "reconnect_player_attachment_dropper"@]);
        let r12 = spec_register_handlers(r11, "reconnect"@, Direction::CTOS, seq!["reconnect_deck_recorder"@, "reconnect_joingame_interceptor"@, "reconnect_ready_stopper"@, "reconnect_hint_recorder"@]);
        let r13 = spec_register_handlers(r12, "reconnect"@, Direction::STOC, seq!["reconnect_cleanup"@, "reconnect_gm_recorder"@]);
        r13
    }
}

/// Register the plugin's handlers with the registry.
pub fn init(registry: &mut Registry) -> (r: Result<(), PluginError>)
    requires
        old(registry).wf(),
    ensures
        final(registry).wf(),
        final(registry)@ == spec_init(old(registry)@),
        r == (if old(registry)@.configured.contains("reconnect"@) { Err(PluginError::ConfigurationAlreadySet) } else { Ok(()) }),
{
    if !registry.configure("reconnect") {
        return Err(PluginError::ConfigurationAlreadySet);
    }
    {
        let mut names: Vec<&str> = Vec::new();
        names.push("stage_recorder");
        assert(strs(names@) =~= seq!["stage_recorder"@]);
        Handler::register_dependencies("reconnect", names, registry);
    }
    Handler::new(0, "reconnect_player_destroy_interceptor", HandlerOccasion::Before, HandlerCondition::MessageType(MessageType::SRVPRU(srvpru::MessageType::PlayerDestroy))).register(registry);
    Handler::new(7, "reconnect_joingame_interceptor", HandlerOccasion::Before, HandlerCondition::MessageType(MessageType::CTOS(ctos::MessageType::JoinGame))).register(registry);
    Handler::new(100, "", HandlerOccasion::Before, HandlerCondition::MessageType(MessageType::CTOS(ctos::MessageType::UpdateDeck))).register_as("reconnect_deck_recorder", registry);
    Handler::new(100, "reconnect_cleanup", HandlerOccasion::After, HandlerCondition::MessageType(MessageType::STOC(stoc::MessageType::FieldFinish))).register(registry);
    Handler::new(100, "", HandlerOccasion::After, HandlerCondition::MessageType(MessageType::SRVPRU(srvpru::MessageType::PlayerDestroy))).register_as("reconnect_player_attachment_dropper", registry);
    Handler::new(100, "", HandlerOccasion::Before, HandlerCondition::MessageType(MessageType::CTOS(ctos::MessageType::HsReady))).register_as("reconnect_ready_stopper", registry);
    Handler::new(100, "", HandlerOccasion::After, HandlerCondition::MessageType(MessageType::STOC(stoc::MessageType::GameMessage))).register_as("reconnect_gm_recorder", registry);
    Handler::new(100, "", HandlerOccasion::After, HandlerCondition::MessageType(MessageType::GM(gm::MessageType::Hint))).register_as("reconnect_hint_recorder", registry);
    Handler::new(100, "", HandlerOccasion::After, HandlerCondition::MessageType(MessageType::SRVPRU(srvpru::MessageType::RoomDestroy))).register_as("reconnect_room_attachment_dropper", registry);
    {
        let mut names: Vec<&str> = Vec::new();
        names.push("reconnect_player_destroy_interceptor");
        names.push("reconnect_player_attachment_dropper");
        assert(strs(names@) =~= seq!["reconnect_player_destroy_interceptor"@, "reconnect_player_attachment_dropper"@]);
        Handler::register_handlers("reconnect", Direction::SRVPRU, names, registry);
    }
    {
        let mut names: Vec<&str> = Vec::new();
        names.push("reconnect_deck_recorder");
        names.push("reconnect_joingame_interceptor");
        names.push("reconnect_ready_stopper");
        names.push("reconnect_hint_recorder");
        assert(strs(names@) =~= seq!["reconnect_deck_recorder"@, "reconnect_joingame_interceptor"@, "reconnect_ready_stopper"@, "reconnect_hint_recorder"@]);
        Handler::register_handlers("reconnect", Direction::CTOS, names, registry);
    }
    {
        let mut names: Vec<&str> = Vec::new();
        names.push("reconnect_cleanup");
        names.push("reconnect_gm_recorder");
        assert(strs(names@) =~= seq!["reconnect_cleanup"@, "reconnect_gm_recorder"@]);
        Handler::register_handlers("reconnect", Direction::STOC, names, registry);
    }
    Ok(())
}


/// Milliseconds that a dropped player may take to come back, when none is
/// configured.
pub fn default_timeout() -> (r: u64)
    ensures
        r == 90,
{
    90
}

/// The plugin's configuration.
#[derive(Clone, Debug)]
pub struct Configuration {
    pub timeout: u64,
    pub can_reconnect_by_kick: bool,
}

impl Default for Configuration {
    fn default() -> (r: Configuration)
        ensures
            r.timeout == 90,
            !r.can_reconnect_by_kick,
    {
        Configuration { timeout: default_timeout(), can_reconnect_by_kick: false }
    }
}

/// Where a player stands in coming back.
#[derive(Copy, Clone, Debug, PartialEq, Eq, Structural, PartialOrd, Ord)]
pub enum ReconnectStatus {
    Normal,
    Dropped,
    Prepare,
    Recovering,
}

impl Default for ReconnectStatus {
    fn default() -> (r: ReconnectStatus)
        ensures
            r == ReconnectStatus::Normal,
    {
        ReconnectStatus::Normal
    }
}

/// An IP address.
#[derive(Copy, Clone, Debug)]
pub enum IpAddress {
    V4([u8; 4]),
    V6([u16; 8]),
}

/// An address of a socket: an IP address and a port.
#[derive(Copy, Clone, Debug)]
pub struct SocketAddress {
    pub ip: IpAddress,
    pub port: u16,
}

/// Whether two socket addresses share their IP address: both of one
/// version, with the same address; ports do not matter.
pub open spec fn spec_ip_equal(a: SocketAddress, b: SocketAddress) -> bool {
    match (a.ip, b.ip) {
        (IpAddress::V4(x), IpAddress::V4(y)) => x@ == y@,
        (IpAddress::V6(x), IpAddress::V6(y)) => x@ == y@,
        _ => false,
    }
}

pub fn ip_equal(addr1: SocketAddress, addr2: SocketAddress) -> (r: bool)
    ensures
        r == spec_ip_equal(addr1, addr2),
{
    match (addr1.ip, addr2.ip) {
        (IpAddress::V4(x), IpAddress::V4(y)) => {
            let mut i: usize = 0;
            while i < 4
                invariant
                    addr1.ip == IpAddress::V4(x),
                    addr2.ip == IpAddress::V4(y),
                    i <= 4,
                    forall|j: int| 0 <= j < i ==> x@[j] == y@[j],
                decreases 4 - i,
            {
                if x[i] != y[i] {
                    assert(x@[i as int] != y@[i as int]);
                    return false;
                }
                i = i + 1;
            }
            assert(x@ =~= y@);
            true
        },
        (IpAddress::V6(x), IpAddress::V6(y)) => {
            let mut i: usize = 0;
            while i < 8
                invariant
                    addr1.ip == IpAddress::V6(x),
                    addr2.ip == IpAddress::V6(y),
                    i <= 8,
                    forall|j: int| 0 <= j < i ==> x@[j] == y@[j],
                decreases 8 - i,
            {
                if x[i] != y[i] {
                    assert(x@[i as int] != y@[i as int]);
                    return false;
                }
                i = i + 1;
            }
            assert(x@ =~= y@);
            true
        },
        _ => false,
    }
}

/// Whether a leaving player is held for a reconnect: not one already
/// counting down, and only while a duel is under way.
pub fn holds_leaving_player(counting_down: bool, stage: DuelStage) -> (r: bool)
    ensures
        r == (!counting_down && stage != DuelStage::Begin && stage != DuelStage::End),
{
    !counting_down && stage != DuelStage::Begin && stage != DuelStage::End
}

/// How a player who came back is brought to where the duel stands.
#[derive(Copy, Clone, Debug, PartialEq, Eq, Structural)]
pub enum ReconnectStep {
    /// Ask the duel server for the field.
    RequestField,
    /// Show the start of a duel, then this message again.
    Resend(stoc::MessageType),
    /// Nothing can be done at this stage.
    Nothing,
}

pub open spec fn spec_reconnect_step(stage: DuelStage) -> ReconnectStep {
    match stage {
        DuelStage::Dueling => ReconnectStep::RequestField,
        DuelStage::Finger => ReconnectStep::Resend(stoc::MessageType::SelectHand),
        DuelStage::Firstgo => ReconnectStep::Resend(stoc::MessageType::SelectTp),
        DuelStage::Siding => ReconnectStep::Resend(stoc::MessageType::ChangeSide),
        _ => ReconnectStep::Nothing,
    }
}

pub fn reconnect_step(stage: DuelStage) -> (r: ReconnectStep)
    ensures
        r == spec_reconnect_step(stage),
{
    match stage {
        DuelStage::Dueling => ReconnectStep::RequestField,
        DuelStage::Finger => ReconnectStep::Resend(stoc::MessageType::SelectHand),
        DuelStage::Firstgo => ReconnectStep::Resend(stoc::MessageType::SelectTp),
        DuelStage::Siding => ReconnectStep::Resend(stoc::MessageType::ChangeSide),
        _ => ReconnectStep::Nothing,
    }
}

/// Whether a game message is kept as the last one: not while coming back,
/// and not a retry.
pub fn records_game_message(status: ReconnectStatus, kind: gm::MessageType) -> (r: bool)
    ensures
        r == (status == ReconnectStatus::Normal && kind != gm::MessageType::Retry),
{
    status == ReconnectStatus::Normal && kind != gm::MessageType::Retry
}

/// Whether a hint is kept as the last one: the hints that ask to select.
pub fn records_hint(hint: Hint) -> (r: bool)
    ensures
        r == (hint == Hint::SelectMessage),
{
    hint == Hint::SelectMessage
}

/// Whether a player's readiness is held back: while it is coming back.
pub fn stops_ready(status: ReconnectStatus) -> (r: bool)
    ensures
        r == (status == ReconnectStatus::Recovering),
{
    status == ReconnectStatus::Recovering
}

/// Whether a deck sent by a player who came back is the deck of the player
/// who left.
pub fn same_deck(used_deck: &[u8], sent: &[u8]) -> (r: bool)
    ensures
        r == (used_deck@ == sent@),
{
    if used_deck.len() != sent.len() {
        return false;
    }
    let mut i: usize = 0;
    while i < used_deck.len()
        invariant
            used_deck@.len() == sent@.len(),
            i <= used_deck@.len(),
            forall|j: int| 0 <= j < i ==> used_deck@[j] == sent@[j],
        decreases used_deck@.len() - i,
    {
        if used_deck[i] != sent[i] {
            return false;
        }
        i = i + 1;
    }
    assert(used_deck@ =~= sent@);
    true
}

/// The line that tells a room that a player left.
pub fn disconnect_text(name: &str) -> (r: String)
    ensures
        r@ == name@ + " {disconnect_from_game}"@,
{
    let mut out: Vec<char> = Vec::new();
    push_str(&mut out, name);
    push_str(&mut out, " {disconnect_from_game}");
    string_of(out.as_slice())
}

/// Whether `r` is what a player who comes back is shown first: the room it
/// left, itself as host, a masked first duelist and the player who left as
/// the second.
pub open spec fn is_rejoin_sequence(r: MessageSequence, host: HostInfoView, name: Seq<char>) -> bool {
    &&& r.messages@.len() == 4
    &&& r.messages@[0] matches Message::StocJoinGame(m) && m.info@ == host
    &&& r.messages@[1] matches Message::StocTypeChange(m) && m._type == 1
    &&& r.messages@[2] matches Message::StocHsPlayerEnter(m) && m.pos == Netplayer::Player1.spec_value()
        && m.name@ == utf16_of("********"@) + Seq::new((20 - utf16_of("********"@).len()) as nat, |i: int| 0u16)
    &&& r.messages@[3] matches Message::StocHsPlayerEnter(m) && m.pos == Netplayer::Player2.spec_value()
        && m.name@ == utf16_of(name) + Seq::new((20 - utf16_of(name).len()) as nat, |i: int| 0u16)
}

/// What a player who comes back is shown first of the room it left.
pub fn rejoin_sequence(host_info: &HostInfo, dropped_name: &str) -> (r: MessageSequence)
    requires
        utf16_of(dropped_name@).len() <= 20,
    ensures
        is_rejoin_sequence(r, host_info@, dropped_name@),
{
    proof {
        reveal_strlit("********");
        lemma_mask_units();
    }
    let mut messages: Vec<Message> = Vec::new();
    messages.push(Message::StocJoinGame(stoc::JoinGame { info: host_info.clone() }));
    messages.push(Message::StocTypeChange(stoc::TypeChange { _type: 1 }));
    messages.push(Message::StocHsPlayerEnter(stoc::HsPlayerEnter { name: cast_to_fix_length_array::<20>("********"), pos: Netplayer::Player1.into_u8() }));
    messages.push(Message::StocHsPlayerEnter(stoc::HsPlayerEnter { name: cast_to_fix_length_array::<20>(dropped_name), pos: Netplayer::Player2.into_u8() }));
    MessageSequence { messages }
}

/// Whether two socket addresses are the same: the same IP address and the
/// same port.
pub open spec fn spec_same_address(a: SocketAddress, b: SocketAddress) -> bool {
    spec_ip_equal(a, b) && a.port == b.port
}

/// Whether two socket addresses are the same.
pub fn same_address(a: SocketAddress, b: SocketAddress) -> (r: bool)
    ensures
        r == spec_same_address(a, b),
{
    a.port == b.port && ip_equal(a, b)
}

/// What the plugin keeps of a player: the deck it last sent, where it stands
/// in coming back, whether its countdown runs, and the last game message and
/// selection hint that it was sent.
#[derive(Debug)]
pub struct ReconnectRecord {
    pub addr: SocketAddress,
    pub used_deck: Vec<u8>,
    pub status: ReconnectStatus,
    pub counting_down: bool,
    pub last_game_message: Option<Vec<u8>>,
    pub last_hint: Option<gm::Hint>,
}

/// The model of a [`ReconnectRecord`].
pub struct ReconnectRecordView {
    pub addr: SocketAddress,
    pub used_deck: Seq<u8>,
    pub status: ReconnectStatus,
    pub counting_down: bool,
    pub last_game_message: Option<Seq<u8>>,
    pub last_hint: Option<gm::Hint>,
}

/// Optional bytes as a sequence.
pub open spec fn opt_bytes(v: Option<Vec<u8>>) -> Option<Seq<u8>> {
    match v {
        Some(b) => Some(b@),
        None => None,
    }
}

impl View for ReconnectRecord {
    type V = ReconnectRecordView;

    open spec fn view(&self) -> ReconnectRecordView {
        ReconnectRecordView {
            addr: self.addr,
            used_deck: self.used_deck@,
            status: self.status,
            counting_down: self.counting_down,
            last_game_message: opt_bytes(self.last_game_message),
            last_hint: self.last_hint,
        }
    }
}

/// The player who left a room and is held for it.
#[derive(Debug)]
pub struct HeldPlayer {
    pub addr: SocketAddress,
    pub name: String,
}

/// What the plugin keeps of a room: the player who left and is held, if
/// any, and what it keeps of each player.
#[derive(Debug)]
pub struct ReconnectState {
    pub held: Option<HeldPlayer>,
    pub records: Vec<ReconnectRecord>,
}

/// The model of a [`ReconnectState`].
pub struct ReconnectStateView {
    pub held: Option<(SocketAddress, Seq<char>)>,
    pub records: Seq<ReconnectRecordView>,
}

/// The models of records, in order.
pub open spec fn records_view(records: Seq<ReconnectRecord>) -> Seq<ReconnectRecordView> {
    records.map_values(|r: ReconnectRecord| r@)
}

impl View for ReconnectState {
    type V = ReconnectStateView;

    open spec fn view(&self) -> ReconnectStateView {
        ReconnectStateView {
            held: match self.held {
                Some(h) => Some((h.addr, h.name@)),
                None => None,
            },
            records: records_view(self.records@),
        }
    }
}

impl ReconnectState {
    /// The name of a held player fits in a name field.
    pub open spec fn wf(&self) -> bool {
        self@.held matches Some((_, name)) ==> utf16_of(name).len() <= 20
    }

    /// Nobody held, nothing kept.
    pub fn new() -> (r: ReconnectState)
        ensures
            r@.held is None,
            r@.records == Seq::<ReconnectRecordView>::empty(),
            r.wf(),
    {
        let r = ReconnectState { held: None, records: Vec::new() };
        assert(r@.records =~= Seq::<ReconnectRecordView>::empty());
        r
    }
}

/// What happens to a room that the plugin follows.
#[derive(Debug)]
pub enum ReconnectEvent {
    /// A player of the room is about to be destroyed, at this stage of the
    /// duel.
    PlayerDestroyed { addr: SocketAddress, name: String, stage: DuelStage },
    /// A client asks to join the room, whose host information this is.
    JoinGame { addr: SocketAddress, host_info: HostInfo },
    /// A player of the room sends its deck, at this stage of the duel.
    UpdateDeck { addr: SocketAddress, deck: Vec<u8>, stage: DuelStage },
    /// A player was sent the end of a field.
    FieldFinish { addr: SocketAddress },
    /// A player says it is ready.
    HsReady { addr: SocketAddress },
    /// A player was sent a game message of this kind, in these bytes.
    GameMessage { addr: SocketAddress, kind: gm::MessageType, data: Vec<u8> },
    /// A player was sent a hint.
    Hint { addr: SocketAddress, hint: gm::Hint },
    /// The countdown of this player ran out.
    Timeout { addr: SocketAddress },
}

/// The model of a [`ReconnectEvent`].
pub enum ReconnectEventView {
    PlayerDestroyed { addr: SocketAddress, name: Seq<char>, stage: DuelStage },
    JoinGame { addr: SocketAddress, host_info: HostInfoView },
    UpdateDeck { addr: SocketAddress, deck: Seq<u8>, stage: DuelStage },
    FieldFinish { addr: SocketAddress },
    HsReady { addr: SocketAddress },
    GameMessage { addr: SocketAddress, kind: gm::MessageType, data: Seq<u8> },
    Hint { addr: SocketAddress, hint: gm::Hint },
    Timeout { addr: SocketAddress },
}

impl View for ReconnectEvent {
    type V = ReconnectEventView;

    open spec fn view(&self) -> ReconnectEventView {
        match self {
            ReconnectEvent::PlayerDestroyed { addr, name, stage } => ReconnectEventView::PlayerDestroyed { addr: *addr, name: name@, stage: *stage },
            ReconnectEvent::JoinGame { addr, host_info } => ReconnectEventView::JoinGame { addr: *addr, host_info: host_info@ },
            ReconnectEvent::UpdateDeck { addr, deck, stage } => ReconnectEventView::UpdateDeck { addr: *addr, deck: deck@, stage: *stage },
            ReconnectEvent::FieldFinish { addr } => ReconnectEventView::FieldFinish { addr: *addr },
            ReconnectEvent::HsReady { addr } => ReconnectEventView::HsReady { addr: *addr },
            ReconnectEvent::GameMessage { addr, kind, data } => ReconnectEventView::GameMessage { addr: *addr, kind: *kind, data: data@ },
            ReconnectEvent::Hint { addr, hint } => ReconnectEventView::Hint { addr: *addr, hint: *hint },
            ReconnectEvent::Timeout { addr } => ReconnectEventView::Timeout { addr: *addr },
        }
    }
}

impl ReconnectEvent {
    /// A destroyed player's name fits in a name field.
    pub open spec fn wf(&self) -> bool {
        self@ matches ReconnectEventView::PlayerDestroyed { name, .. } ==> utf16_of(name).len() <= 20
    }
}

/// What the server does for the plugin after an event.
#[derive(Debug)]
pub enum ReconnectAction {
    /// Let the message go on.
    Forward,
    /// Stop the message.
    Block,
    /// Start the countdown of the player who left.
    Hold,
    /// Tell the room this line.
    TellRoom(String),
    /// Tell the sender this line.
    TellSender(String),
    /// Send these messages to the sender.
    Send(MessageSequence),
    /// Take the sender into the room as one of its players.
    AdmitSender,
    /// Tell the sender that its deck is not the deck of the player who left.
    RefuseDeck,
    /// Let the sender take the place of the held player in the duel.
    MoveHeld,
    /// Bring the sender to where the duel stands.
    Restore(ReconnectStep),
    /// Cut the sender's connection to the duel server, so that it loses.
    CutServer,
    /// Destroy this held player.
    ExpelHeld(SocketAddress),
    /// Send this hint to the sender again.
    SendHint(gm::Hint),
    /// Send these bytes to the sender again.
    SendRaw(Vec<u8>),
    /// The event could not be handled: the record of the held player is gone.
    Fail,
}

/// The model of a [`ReconnectAction`]; the messages of a room are given by
/// what they show: its host information and the name of the held player.
pub enum ReconnectActionView {
    Forward,
    Block,
    Hold,
    TellRoom(Seq<char>),
    TellSender(Seq<char>),
    ShowRoom(HostInfoView, Seq<char>),
    AdmitSender,
    RefuseDeck,
    MoveHeld,
    Restore(ReconnectStep),
    CutServer,
    ExpelHeld(SocketAddress),
    SendHint(gm::Hint),
    SendRaw(Seq<u8>),
    Fail,
}

/// Whether an action is what its model says.
pub open spec fn action_is(a: ReconnectAction, v: ReconnectActionView) -> bool {
    match (a, v) {
        (ReconnectAction::Forward, ReconnectActionView::Forward) => true,
        (ReconnectAction::Block, ReconnectActionView::Block) => true,
        (ReconnectAction::Hold, ReconnectActionView::Hold) => true,
        (ReconnectAction::TellRoom(t), ReconnectActionView::TellRoom(u)) => t@ == u,
        (ReconnectAction::TellSender(t), ReconnectActionView::TellSender(u)) => t@ == u,
        (ReconnectAction::Send(ms), ReconnectActionView::ShowRoom(host, name)) => is_rejoin_sequence(ms, host, name),
        (ReconnectAction::AdmitSender, ReconnectActionView::AdmitSender) => true,
        (ReconnectAction::RefuseDeck, ReconnectActionView::RefuseDeck) => true,
        (ReconnectAction::MoveHeld, ReconnectActionView::MoveHeld) => true,
        (ReconnectAction::Restore(x), ReconnectActionView::Restore(y)) => x == y,
        (ReconnectAction::CutServer, ReconnectActionView::CutServer) => true,
        (ReconnectAction::ExpelHeld(x), ReconnectActionView::ExpelHeld(y)) => x == y,
        (ReconnectAction::SendHint(x), ReconnectActionView::SendHint(y)) => x == y,
        (ReconnectAction::SendRaw(x), ReconnectActionView::SendRaw(y)) => x@ == y,
        (ReconnectAction::Fail, ReconnectActionView::Fail) => true,
        _ => false,
    }
}

/// Whether actions are what their models say, one by one.
pub open spec fn actions_are(a: Seq<ReconnectAction>, v: Seq<ReconnectActionView>) -> bool {
    a.len() == v.len() && forall|i: int| 0 <= i < a.len() ==> #[trigger] action_is(a[i], v[i])
}

/// The index of the last record of `addr`, or -1.
pub open spec fn index_of(recs: Seq<ReconnectRecordView>, addr: SocketAddress) -> int
    decreases recs.len(),
{
    if recs.len() == 0 {
        -1
    } else if spec_same_address(recs.last().addr, addr) {
        recs.len() - 1
    } else {
        index_of(recs.drop_last(), addr)
    }
}

/// A record with nothing kept yet.
pub open spec fn fresh_record(addr: SocketAddress) -> ReconnectRecordView {
    ReconnectRecordView {
        addr,
        used_deck: Seq::empty(),
        status: ReconnectStatus::Normal,
        counting_down: false,
        last_game_message: None,
        last_hint: None,
    }
}

/// The records with one for `addr`, a fresh one added where there was none.
pub open spec fn ensure_record(recs: Seq<ReconnectRecordView>, addr: SocketAddress) -> Seq<ReconnectRecordView> {
    if index_of(recs, addr) >= 0 { recs } else { recs.push(fresh_record(addr)) }
}

/// The records without the one of `addr`.
pub open spec fn drop_record(recs: Seq<ReconnectRecordView>, addr: SocketAddress) -> Seq<ReconnectRecordView> {
    if index_of(recs, addr) >= 0 { recs.remove(index_of(recs, addr)) } else { recs }
}

/// The records with `rec` in place of the one of `addr`, or added.
pub open spec fn put_record(recs: Seq<ReconnectRecordView>, addr: SocketAddress, rec: ReconnectRecordView) -> Seq<ReconnectRecordView> {
    if index_of(recs, addr) >= 0 { recs.update(index_of(recs, addr), rec) } else { recs.push(rec) }
}

/// The record of `addr`, a fresh one where there is none.
pub open spec fn record_of(recs: Seq<ReconnectRecordView>, addr: SocketAddress) -> ReconnectRecordView {
    ensure_record(recs, addr)[index_of(ensure_record(recs, addr), addr)]
}

/// What an event does to what the plugin keeps of a room, and what the
/// server is to do.
pub open spec fn spec_reconnect_transition(s: ReconnectStateView, e: ReconnectEventView) -> (ReconnectStateView, Seq<ReconnectActionView>) {
    let recs = s.records;
    match e {
        ReconnectEventView::PlayerDestroyed { addr, name, stage } => {
            let rec = record_of(recs, addr);
            if !(!rec.counting_down && stage != DuelStage::Begin && stage != DuelStage::End) {
                (ReconnectStateView { held: s.held, records: drop_record(recs, addr) }, seq![ReconnectActionView::Forward])
            } else {
                match s.held {
                    Some((held, _)) => (
                        ReconnectStateView { held: None, records: drop_record(recs, addr) },
                        seq![ReconnectActionView::CutServer, ReconnectActionView::ExpelHeld(held), ReconnectActionView::Forward],
                    ),
                    None => (
                        ReconnectStateView {
                            held: Some((addr, name)),
                            records: put_record(recs, addr, ReconnectRecordView { status: ReconnectStatus::Dropped, counting_down: true, ..rec }),
                        },
                        seq![ReconnectActionView::Hold, ReconnectActionView::TellRoom(name + " {disconnect_from_game}"@), ReconnectActionView::Block],
                    ),
                }
            }
        },
        ReconnectEventView::JoinGame { addr, host_info } => match s.held {
            Some((held, name)) => if spec_ip_equal(held, addr) {
                let i = index_of(recs, held);
                (
                    ReconnectStateView {
                        held: s.held,
                        records: if i >= 0 { recs.update(i, ReconnectRecordView { status: ReconnectStatus::Prepare, ..recs[i] }) } else { recs },
                    },
                    seq![
                        ReconnectActionView::ShowRoom(host_info, name),
                        ReconnectActionView::TellSender("{pre_reconnecting_to_room}"@),
                        ReconnectActionView::AdmitSender,
                        ReconnectActionView::Block,
                    ],
                )
            } else {
                (s, seq![ReconnectActionView::Forward])
            },
            None => (s, seq![ReconnectActionView::Forward]),
        },
        ReconnectEventView::UpdateDeck { addr, deck, stage } => match s.held {
            None => {
                let rec = record_of(recs, addr);
                (ReconnectStateView { held: s.held, records: put_record(recs, addr, ReconnectRecordView { used_deck: deck, ..rec }) }, seq![ReconnectActionView::Forward])
            },
            Some((held, _)) => {
                let i = index_of(recs, held);
                if i < 0 {
                    (s, seq![ReconnectActionView::Fail])
                } else {
                    let rec = recs[i];
                    let rest = recs.remove(i);
                    if rec.status == ReconnectStatus::Prepare {
                        if rec.used_deck == deck {
                            (
                                ReconnectStateView {
                                    held: s.held,
                                    records: put_record(rest, addr, ReconnectRecordView { addr, status: ReconnectStatus::Recovering, counting_down: false, ..rec }),
                                },
                                seq![
                                    ReconnectActionView::TellSender("{reconnecting_to_room}"@),
                                    ReconnectActionView::MoveHeld,
                                    ReconnectActionView::Restore(spec_reconnect_step(stage)),
                                    ReconnectActionView::Block,
                                ],
                            )
                        } else {
                            (ReconnectStateView { held: s.held, records: rest }, seq![ReconnectActionView::RefuseDeck, ReconnectActionView::Block])
                        }
                    } else {
                        (ReconnectStateView { held: s.held, records: rest }, seq![ReconnectActionView::Forward])
                    }
                }
            },
        },
        ReconnectEventView::FieldFinish { addr } => {
            let rec = record_of(recs, addr);
            let hint: Seq<ReconnectActionView> = match rec.last_hint {
                Some(h) => seq![ReconnectActionView::SendHint(h)],
                None => Seq::empty(),
            };
            let game: Seq<ReconnectActionView> = match rec.last_game_message {
                Some(d) => seq![ReconnectActionView::SendRaw(d)],
                None => Seq::empty(),
            };
            (ReconnectStateView { held: None, records: put_record(recs, addr, ReconnectRecordView { status: ReconnectStatus::Normal, ..rec }) }, hint + game)
        },
        ReconnectEventView::HsReady { addr } => {
            let rec = record_of(recs, addr);
            (
                ReconnectStateView { held: s.held, records: ensure_record(recs, addr) },
                if rec.status == ReconnectStatus::Recovering { seq![ReconnectActionView::Block] } else { seq![ReconnectActionView::Forward] },
            )
        },
        ReconnectEventView::GameMessage { addr, kind, data } => {
            let i = index_of(recs, addr);
            if i >= 0 && recs[i].status == ReconnectStatus::Normal && kind != gm::MessageType::Retry {
                (ReconnectStateView { held: s.held, records: recs.update(i, ReconnectRecordView { last_game_message: Some(data), ..recs[i] }) }, Seq::empty())
            } else {
                (s, Seq::empty())
            }
        },
        ReconnectEventView::Hint { addr, hint } => {
            let rec = record_of(recs, addr);
            if hint._type == Hint::SelectMessage {
                (ReconnectStateView { held: s.held, records: put_record(recs, addr, ReconnectRecordView { last_hint: Some(hint), ..rec }) }, Seq::empty())
            } else {
                (ReconnectStateView { held: s.held, records: ensure_record(recs, addr) }, Seq::empty())
            }
        },
        ReconnectEventView::Timeout { addr } => {
            let i = index_of(recs, addr);
            if i >= 0 && recs[i].counting_down {
                (s, seq![ReconnectActionView::ExpelHeld(addr)])
            } else {
                (s, Seq::empty())
            }
        },
    }
}

proof fn lemma_index_range(recs: Seq<ReconnectRecordView>, addr: SocketAddress)
    ensures
        -1 <= index_of(recs, addr) < recs.len(),
    decreases recs.len(),
{
    if recs.len() > 0 {
        lemma_index_range(recs.drop_last(), addr);
    }
}

proof fn lemma_ensure(recs: Seq<ReconnectRecordView>, addr: SocketAddress, x: ReconnectRecordView)
    ensures
        0 <= index_of(ensure_record(recs, addr), addr) < ensure_record(recs, addr).len(),
        ensure_record(recs, addr).update(index_of(ensure_record(recs, addr), addr), x) == put_record(recs, addr, x),
        ensure_record(recs, addr).remove(index_of(ensure_record(recs, addr), addr)) == drop_record(recs, addr),
{
    lemma_index_range(recs, addr);
    if index_of(recs, addr) < 0 {
        let e = recs.push(fresh_record(addr));
        assert(e.drop_last() =~= recs);
        assert(spec_same_address(e.last().addr, addr));
        assert(index_of(e, addr) == recs.len());
        assert(e.update(recs.len() as int, x) =~= recs.push(x));
        assert(e.remove(recs.len() as int) =~= recs);
    }
}

/// A record with nothing kept yet.
fn fresh(addr: SocketAddress) -> (r: ReconnectRecord)
    ensures
        r@ == fresh_record(addr),
{
    let r = ReconnectRecord {
        addr,
        used_deck: Vec::new(),
        status: ReconnectStatus::Normal,
        counting_down: false,
        last_game_message: None,
        last_hint: None,
    };
    assert(r@.used_deck =~= Seq::<u8>::empty());
    r
}

/// The index of the record of `addr`, if there is one.
fn find_record(records: &Vec<ReconnectRecord>, addr: SocketAddress) -> (r: Option<usize>)
    ensures
        match r {
            Some(i) => i < records@.len() && i == index_of(records_view(records@), addr),
            None => index_of(records_view(records@), addr) == -1,
        },
{
    let ghost rv = records_view(records@);
    let mut i: usize = records.len();
    assert(rv.take(i as int) =~= rv);
    while i > 0
        invariant
            i <= records@.len(),
            rv == records_view(records@),
            index_of(rv, addr) == index_of(rv.take(i as int), addr),
        decreases i,
    {
        let same = same_address(records[i - 1].addr, addr);
        assert(rv.take(i as int).last() == rv[i - 1]);
        if same {
            return Some(i - 1);
        }
        assert(rv.take(i as int).drop_last() =~= rv.take(i - 1));
        i = i - 1;
    }
    None
}

/// The index of the record of `addr`, added fresh where there was none.
fn ensure_index(records: &mut Vec<ReconnectRecord>, addr: SocketAddress) -> (r: usize)
    ensures
        records_view(final(records)@) == ensure_record(records_view(old(records)@), addr),
        r == index_of(records_view(final(records)@), addr),
        r < final(records)@.len(),
{
    proof {
        lemma_index_range(records_view(records@), addr);
    }
    match find_record(records, addr) {
        Some(i) => i,
        None => {
            let n = records.len();
            records.push(fresh(addr));
            proof {
                let old_v = records_view(old(records)@);
                assert(records_view(records@) =~= old_v.push(fresh_record(addr)));
                assert(records_view(records@).drop_last() =~= old_v);
                assert(spec_same_address(addr, addr));
            }
            n
        },
    }
}

/// Put `rec` in place of the record at `i`.
fn replace_at(records: &mut Vec<ReconnectRecord>, i: usize, rec: ReconnectRecord)
    requires
        i < old(records)@.len(),
    ensures
        records_view(final(records)@) == records_view(old(records)@).update(i as int, rec@),
{
    records.remove(i);
    records.insert(i, rec);
    assert(records_view(records@) =~= records_view(old(records)@).update(i as int, rec@));
}

/// Take the record at `i` out.
fn take_at(records: &mut Vec<ReconnectRecord>, i: usize) -> (r: ReconnectRecord)
    requires
        i < old(records)@.len(),
    ensures
        r@ == records_view(old(records)@)[i as int],
        records_view(final(records)@) == records_view(old(records)@).remove(i as int),
        final(records)@.len() == old(records)@.len() - 1,
{
    let r = records.remove(i);
    assert(records_view(records@) =~= records_view(old(records)@).remove(i as int));
    r
}

/// Put `rec` back at `i`, where one was taken out.
fn insert_at(records: &mut Vec<ReconnectRecord>, i: usize, rec: ReconnectRecord, Ghost(taken_from): Ghost<Seq<ReconnectRecordView>>)
    requires
        i < taken_from.len(),
        records_view(old(records)@) == taken_from.remove(i as int),
        old(records)@.len() == taken_from.len() - 1,
    ensures
        records_view(final(records)@) == taken_from.update(i as int, rec@),
{
    let ghost old_view = records_view(records@);
    records.insert(i, rec);
    assert(records_view(records@) =~= old_view.insert(i as int, rec@));
    assert(taken_from.remove(i as int).insert(i as int, rec@) =~= taken_from.update(i as int, rec@));
}

/// Put `rec` in place of the record of `addr`, or add it.
fn put_record_at(records: &mut Vec<ReconnectRecord>, addr: SocketAddress, rec: ReconnectRecord)
    ensures
        records_view(final(records)@) == put_record(records_view(old(records)@), addr, rec@),
{
    match find_record(records, addr) {
        Some(i) => replace_at(records, i, rec),
        None => {
            records.push(rec);
            assert(records_view(records@) =~= records_view(old(records)@).push(rec@));
        },
    }
}

fn copy_hint(h: &gm::Hint) -> (r: gm::Hint)
    ensures
        r == *h,
{
    gm::Hint { _type: h._type, player: h.player, data: h.data }
}

/// A line of text, owned.
fn line(text: &str) -> (r: String)
    ensures
        r@ == text@,
{
    let mut out: Vec<char> = Vec::new();
    push_str(&mut out, text);
    string_of(out.as_slice())
}

/// A player of the room is about to be destroyed.
fn on_player_destroyed(state: ReconnectState, addr: SocketAddress, name: String, stage: DuelStage) -> (r: (ReconnectState, Vec<ReconnectAction>))
    requires
        state.wf(),
        utf16_of(name@).len() <= 20,
    ensures
        r.0@ == spec_reconnect_transition(state@, ReconnectEventView::PlayerDestroyed { addr, name: name@, stage }).0,
        actions_are(r.1@, spec_reconnect_transition(state@, ReconnectEventView::PlayerDestroyed { addr, name: name@, stage }).1),
        r.0.wf(),
{
    let ghost s = state@;
    let ghost recs = s.records;
    let ReconnectState { held, mut records } = state;
    let mut actions: Vec<ReconnectAction> = Vec::new();
    let j = ensure_index(&mut records, addr);
    let counting = records[j].counting_down;
    if !holds_leaving_player(counting, stage) {
        proof { lemma_ensure(recs, addr, fresh_record(addr)); }
        take_at(&mut records, j);
        actions.push(ReconnectAction::Forward);
        assert(action_is(actions@[0], ReconnectActionView::Forward));
        (ReconnectState { held, records }, actions)
    } else {
        match held {
            Some(h) => {
                proof { lemma_ensure(recs, addr, fresh_record(addr)); }
                take_at(&mut records, j);
                actions.push(ReconnectAction::CutServer);
                actions.push(ReconnectAction::ExpelHeld(h.addr));
                actions.push(ReconnectAction::Forward);
                assert(action_is(actions@[0], ReconnectActionView::CutServer));
                assert(action_is(actions@[1], ReconnectActionView::ExpelHeld(h.addr)));
                assert(action_is(actions@[2], ReconnectActionView::Forward));
                (ReconnectState { held: None, records }, actions)
            },
            None => {
                let mut rec = take_at(&mut records, j);
                let ghost before = rec@;
                rec.status = ReconnectStatus::Dropped;
                rec.counting_down = true;
                proof { lemma_ensure(recs, addr, rec@); }
                insert_at(&mut records, j, rec, Ghost(ensure_record(recs, addr)));
                assert(records_view(records@) =~= ensure_record(recs, addr).update(j as int, ReconnectRecordView { status: ReconnectStatus::Dropped, counting_down: true, ..before }));
                let text = disconnect_text(name.as_str());
                actions.push(ReconnectAction::Hold);
                actions.push(ReconnectAction::TellRoom(text));
                actions.push(ReconnectAction::Block);
                assert(action_is(actions@[0], ReconnectActionView::Hold));
                assert(action_is(actions@[1], ReconnectActionView::TellRoom(name@ + " {disconnect_from_game}"@)));
                assert(action_is(actions@[2], ReconnectActionView::Block));
                (ReconnectState { held: Some(HeldPlayer { addr, name }), records }, actions)
            },
        }
    }
}

/// A client asks to join the room.
fn on_join_game(state: ReconnectState, addr: SocketAddress, host_info: HostInfo) -> (r: (ReconnectState, Vec<ReconnectAction>))
    requires
        state.wf(),
    ensures
        r.0@ == spec_reconnect_transition(state@, ReconnectEventView::JoinGame { addr, host_info: host_info@ }).0,
        actions_are(r.1@, spec_reconnect_transition(state@, ReconnectEventView::JoinGame { addr, host_info: host_info@ }).1),
        r.0.wf(),
{
    let ghost s = state@;
    let ghost recs = s.records;
    let ReconnectState { held, mut records } = state;
    let mut actions: Vec<ReconnectAction> = Vec::new();
    match &held {
        Some(h) => {
            if ip_equal(h.addr, addr) {
                proof { lemma_index_range(recs, h.addr); }
                match find_record(&records, h.addr) {
                    Some(i) => {
                        let mut rec = take_at(&mut records, i);
                        rec.status = ReconnectStatus::Prepare;
                        insert_at(&mut records, i, rec, Ghost(recs));
                        assert(records_view(records@) =~= recs.update(i as int, ReconnectRecordView { status: ReconnectStatus::Prepare, ..recs[i as int] }));
                    },
                    None => {},
                }
                let shown = rejoin_sequence(&host_info, h.name.as_str());
                actions.push(ReconnectAction::Send(shown));
                actions.push(ReconnectAction::TellSender(line("{pre_reconnecting_to_room}")));
                actions.push(ReconnectAction::AdmitSender);
                actions.push(ReconnectAction::Block);
                assert(action_is(actions@[0], ReconnectActionView::ShowRoom(host_info@, h.name@)));
                assert(action_is(actions@[1], ReconnectActionView::TellSender("{pre_reconnecting_to_room}"@)));
                assert(action_is(actions@[2], ReconnectActionView::AdmitSender));
                assert(action_is(actions@[3], ReconnectActionView::Block));
            } else {
                actions.push(ReconnectAction::Forward);
                assert(action_is(actions@[0], ReconnectActionView::Forward));
            }
        },
        None => {
            actions.push(ReconnectAction::Forward);
            assert(action_is(actions@[0], ReconnectActionView::Forward));
        },
    }
    (ReconnectState { held, records }, actions)
}

/// A player of the room sends its deck.
fn on_update_deck(state: ReconnectState, addr: SocketAddress, deck: Vec<u8>, stage: DuelStage) -> (r: (ReconnectState, Vec<ReconnectAction>))
    requires
        state.wf(),
    ensures
        r.0@ == spec_reconnect_transition(state@, ReconnectEventView::UpdateDeck { addr, deck: deck@, stage }).0,
        actions_are(r.1@, spec_reconnect_transition(state@, ReconnectEventView::UpdateDeck { addr, deck: deck@, stage }).1),
        r.0.wf(),
{
    let ghost deck_v = deck@;
    let ghost s = state@;
    let ghost recs = s.records;
    let ReconnectState { held, mut records } = state;
    let mut actions: Vec<ReconnectAction> = Vec::new();
    match &held {
        None => {
            let j = ensure_index(&mut records, addr);
            let mut rec = take_at(&mut records, j);
            let ghost before = rec@;
            rec.used_deck = deck;
            proof { lemma_ensure(recs, addr, rec@); }
            insert_at(&mut records, j, rec, Ghost(ensure_record(recs, addr)));
            assert(records_view(records@) =~= ensure_record(recs, addr).update(j as int, ReconnectRecordView { used_deck: deck_v, ..before }));
            actions.push(ReconnectAction::Forward);
            assert(action_is(actions@[0], ReconnectActionView::Forward));
        },
        Some(h) => {
            proof { lemma_index_range(recs, h.addr); }
            match find_record(&records, h.addr) {
                None => {
                    actions.push(ReconnectAction::Fail);
                    assert(action_is(actions@[0], ReconnectActionView::Fail));
                },
                Some(i) => {
                    let mut rec = take_at(&mut records, i);
                    let ghost before = rec@;
                    if rec.status == ReconnectStatus::Prepare {
                        if same_deck(rec.used_deck.as_slice(), deck.as_slice()) {
                            rec.addr = addr;
                            rec.status = ReconnectStatus::Recovering;
                            rec.counting_down = false;
                            assert(rec@ == ReconnectRecordView { addr, status: ReconnectStatus::Recovering, counting_down: false, ..before });
                            put_record_at(&mut records, addr, rec);
                            actions.push(ReconnectAction::TellSender(line("{reconnecting_to_room}")));
                            actions.push(ReconnectAction::MoveHeld);
                            actions.push(ReconnectAction::Restore(reconnect_step(stage)));
                            actions.push(ReconnectAction::Block);
                            assert(action_is(actions@[0], ReconnectActionView::TellSender("{reconnecting_to_room}"@)));
                            assert(action_is(actions@[1], ReconnectActionView::MoveHeld));
                            assert(action_is(actions@[2], ReconnectActionView::Restore(spec_reconnect_step(stage))));
                            assert(action_is(actions@[3], ReconnectActionView::Block));
                        } else {
                            actions.push(ReconnectAction::RefuseDeck);
                            actions.push(ReconnectAction::Block);
                            assert(action_is(actions@[0], ReconnectActionView::RefuseDeck));
                            assert(action_is(actions@[1], ReconnectActionView::Block));
                        }
                    } else {
                        actions.push(ReconnectAction::Forward);
                        assert(action_is(actions@[0], ReconnectActionView::Forward));
                    }
                },
            }
        },
    }
    (ReconnectState { held, records }, actions)
}

/// A player was sent the end of a field.
fn on_field_finish(state: ReconnectState, addr: SocketAddress) -> (r: (ReconnectState, Vec<ReconnectAction>))
    requires
        state.wf(),
    ensures
        r.0@ == spec_reconnect_transition(state@, ReconnectEventView::FieldFinish { addr }).0,
        actions_are(r.1@, spec_reconnect_transition(state@, ReconnectEventView::FieldFinish { addr }).1),
        r.0.wf(),
{
    let ghost s = state@;
    let ghost recs = s.records;
    let ReconnectState { held, mut records } = state;
    let mut actions: Vec<ReconnectAction> = Vec::new();
    let j = ensure_index(&mut records, addr);
    let mut rec = take_at(&mut records, j);
    let ghost before = rec@;
    match &rec.last_hint {
        Some(h) => {
            actions.push(ReconnectAction::SendHint(copy_hint(h)));
        },
        None => {},
    }
    let ghost n = actions@.len();
    match &rec.last_game_message {
        Some(d) => {
            actions.push(ReconnectAction::SendRaw(crate::srvpru::player::copy_bytes(d.as_slice())));
        },
        None => {},
    }
    rec.status = ReconnectStatus::Normal;
    proof { lemma_ensure(recs, addr, rec@); }
    insert_at(&mut records, j, rec, Ghost(ensure_record(recs, addr)));
    assert(records_view(records@) =~= ensure_record(recs, addr).update(j as int, ReconnectRecordView { status: ReconnectStatus::Normal, ..before }));
    proof {
        let hint: Seq<ReconnectActionView> = match before.last_hint {
            Some(h) => seq![ReconnectActionView::SendHint(h)],
            None => Seq::empty(),
        };
        let game: Seq<ReconnectActionView> = match before.last_game_message {
            Some(d) => seq![ReconnectActionView::SendRaw(d)],
            None => Seq::empty(),
        };
        assert(n == hint.len());
        assert forall|k: int| 0 <= k < actions@.len() implies #[trigger] action_is(actions@[k], (hint + game)[k]) by {
            if k < n {
                assert((hint + game)[k] == hint[k]);
            } else {
                assert((hint + game)[k] == game[k - n]);
            }
        }
    }
    (ReconnectState { held: None, records }, actions)
}

/// A player says it is ready.
fn on_hs_ready(state: ReconnectState, addr: SocketAddress) -> (r: (ReconnectState, Vec<ReconnectAction>))
    requires
        state.wf(),
    ensures
        r.0@ == spec_reconnect_transition(state@, ReconnectEventView::HsReady { addr }).0,
        actions_are(r.1@, spec_reconnect_transition(state@, ReconnectEventView::HsReady { addr }).1),
        r.0.wf(),
{
    let ghost s = state@;
    let ghost recs = s.records;
    let ReconnectState { held, mut records } = state;
    let mut actions: Vec<ReconnectAction> = Vec::new();
    let j = ensure_index(&mut records, addr);
    if stops_ready(records[j].status) {
        actions.push(ReconnectAction::Block);
        assert(action_is(actions@[0], ReconnectActionView::Block));
    } else {
        actions.push(ReconnectAction::Forward);
        assert(action_is(actions@[0], ReconnectActionView::Forward));
    }
    (ReconnectState { held, records }, actions)
}

/// A player was sent a game message.
fn on_game_message(state: ReconnectState, addr: SocketAddress, kind: gm::MessageType, data: Vec<u8>) -> (r: (ReconnectState, Vec<ReconnectAction>))
    requires
        state.wf(),
    ensures
        r.0@ == spec_reconnect_transition(state@, ReconnectEventView::GameMessage { addr, kind, data: data@ }).0,
        actions_are(r.1@, spec_reconnect_transition(state@, ReconnectEventView::GameMessage { addr, kind, data: data@ }).1),
        r.0.wf(),
{
    let ghost data_v = data@;
    let ghost s = state@;
    let ghost recs = s.records;
    let ReconnectState { held, mut records } = state;
    let mut actions: Vec<ReconnectAction> = Vec::new();
    proof { lemma_index_range(recs, addr); }
    match find_record(&records, addr) {
        Some(i) => {
            if records_game_message(records[i].status, kind) {
                let mut rec = take_at(&mut records, i);
                rec.last_game_message = Some(data);
                insert_at(&mut records, i, rec, Ghost(recs));
                assert(records_view(records@) =~= recs.update(i as int, ReconnectRecordView { last_game_message: Some(data_v), ..recs[i as int] }));
            }
        },
        None => {},
    }
    (ReconnectState { held, records }, actions)
}

/// A player was sent a hint.
fn on_hint(state: ReconnectState, addr: SocketAddress, hint: gm::Hint) -> (r: (ReconnectState, Vec<ReconnectAction>))
    requires
        state.wf(),
    ensures
        r.0@ == spec_reconnect_transition(state@, ReconnectEventView::Hint { addr, hint }).0,
        actions_are(r.1@, spec_reconnect_transition(state@, ReconnectEventView::Hint { addr, hint }).1),
        r.0.wf(),
{
    let ghost s = state@;
    let ghost recs = s.records;
    let ReconnectState { held, mut records } = state;
    let mut actions: Vec<ReconnectAction> = Vec::new();
    let j = ensure_index(&mut records, addr);
    if records_hint(hint._type) {
        let mut rec = take_at(&mut records, j);
        let ghost before = rec@;
        rec.last_hint = Some(hint);
        proof { lemma_ensure(recs, addr, rec@); }
        insert_at(&mut records, j, rec, Ghost(ensure_record(recs, addr)));
        assert(records_view(records@) =~= ensure_record(recs, addr).update(j as int, ReconnectRecordView { last_hint: Some(hint), ..before }));
    }
    (ReconnectState { held, records }, actions)
}

/// The countdown of a player ran out.
fn on_timeout(state: ReconnectState, addr: SocketAddress) -> (r: (ReconnectState, Vec<ReconnectAction>))
    requires
        state.wf(),
    ensures
        r.0@ == spec_reconnect_transition(state@, ReconnectEventView::Timeout { addr }).0,
        actions_are(r.1@, spec_reconnect_transition(state@, ReconnectEventView::Timeout { addr }).1),
        r.0.wf(),
{
    let ghost s = state@;
    let ghost recs = s.records;
    let ReconnectState { held, mut records } = state;
    let mut actions: Vec<ReconnectAction> = Vec::new();
    proof { lemma_index_range(recs, addr); }
    match find_record(&records, addr) {
        Some(i) => {
            if records[i].counting_down {
                actions.push(ReconnectAction::ExpelHeld(addr));
                assert(action_is(actions@[0], ReconnectActionView::ExpelHeld(addr)));
            }
        },
        None => {},
    }
    (ReconnectState { held, records }, actions)
}

/// Take an event of a room: what the plugin keeps of it afterwards and what
/// the server is to do, in order.
pub fn reconnect_transition(state: ReconnectState, event: ReconnectEvent) -> (r: (ReconnectState, Vec<ReconnectAction>))
    requires
        state.wf(),
        event.wf(),
    ensures
        r.0@ == spec_reconnect_transition(state@, event@).0,
        actions_are(r.1@, spec_reconnect_transition(state@, event@).1),
        r.0.wf(),
{
    match event {
        ReconnectEvent::PlayerDestroyed { addr, name, stage }  => on_player_destroyed(state, addr, name, stage),
        ReconnectEvent::JoinGame { addr, host_info }  => on_join_game(state, addr, host_info),
        ReconnectEvent::UpdateDeck { addr, deck, stage }  => on_update_deck(state, addr, deck, stage),
        ReconnectEvent::FieldFinish { addr }  => on_field_finish(state, addr),
        ReconnectEvent::HsReady { addr }  => on_hs_ready(state, addr),
        ReconnectEvent::GameMessage { addr, kind, data }  => on_game_message(state, addr, kind, data),
        ReconnectEvent::Hint { addr, hint }  => on_hint(state, addr, hint),
        ReconnectEvent::Timeout { addr }  => on_timeout(state, addr),
    }
}

/// A player brought back to the duel is shown again the prompt of the stage
/// that it left at: after the start of the duel, which is always shown, the
/// message that puts a duel into that stage. Only the duel proper asks the
/// duel server for the field, and outside rock-paper-scissors, choosing who
/// goes first, the duel and siding nothing is done.
pub proof fn law_restore_shows_the_stage(stage: DuelStage, before: DuelStage)
    ensures
        spec_reconnect_step(stage) matches ReconnectStep::Resend(t) ==> {
            &&& spec_stage_after(MessageType::STOC(t), before) == stage
            &&& t != stoc::MessageType::DuelStart
        },
        (stage == DuelStage::Finger || stage == DuelStage::Firstgo || stage == DuelStage::Siding)
            <==> spec_reconnect_step(stage) is Resend,
        (spec_reconnect_step(stage) == ReconnectStep::RequestField) <==> stage == DuelStage::Dueling,
{
}

/// What a player missed is sent to it again once the field was shown: the
/// last game message that it was sent while not coming back, unless that
/// was a retry, comes last after the end of the field, and the last
/// selection hint comes first; the end of the field also ends the hold.
pub proof fn law_missed_messages_replayed(s: ReconnectStateView, addr: SocketAddress, kind: gm::MessageType, data: Seq<u8>, hint: gm::Hint)
    requires
        index_of(s.records, addr) >= 0,
        s.records[index_of(s.records, addr)].status == ReconnectStatus::Normal,
    ensures
        kind == gm::MessageType::Retry ==>
            spec_reconnect_transition(s, ReconnectEventView::GameMessage { addr, kind, data }).0 == s,
        kind != gm::MessageType::Retry ==> ({
            let s1 = spec_reconnect_transition(s, ReconnectEventView::GameMessage { addr, kind, data }).0;
            let (s2, sent) = spec_reconnect_transition(s1, ReconnectEventView::FieldFinish { addr });
            &&& sent.len() >= 1
            &&& sent.last() == ReconnectActionView::SendRaw(data)
            &&& s2.held is None
        }),
        hint._type == Hint::SelectMessage ==> ({
            let s1 = spec_reconnect_transition(s, ReconnectEventView::Hint { addr, hint }).0;
            let sent = spec_reconnect_transition(s1, ReconnectEventView::FieldFinish { addr }).1;
            &&& sent.len() >= 1
            &&& sent[0] == ReconnectActionView::SendHint(hint)
        }),
{
    let recs = s.records;
    let i = index_of(recs, addr);
    lemma_index_range(recs, addr);
    let x = ReconnectRecordView { last_game_message: Some(data), ..recs[i] };
    lemma_index_update(recs, i, x, addr);
    let y = ReconnectRecordView { last_hint: Some(hint), ..recs[i] };
    lemma_ensure(recs, addr, y);
    lemma_index_update(recs, i, y, addr);
}

/// A player coming back may not say it is ready until the field was shown
/// to it; afterwards it may.
pub proof fn law_ready_waits_for_the_field(s: ReconnectStateView, addr: SocketAddress)
    requires
        record_of(s.records, addr).status == ReconnectStatus::Recovering,
    ensures
        spec_reconnect_transition(s, ReconnectEventView::HsReady { addr }).1 == seq![ReconnectActionView::Block],
        spec_reconnect_transition(
            spec_reconnect_transition(s, ReconnectEventView::FieldFinish { addr }).0,
            ReconnectEventView::HsReady { addr },
        ).1 == seq![ReconnectActionView::Forward],
{
    let recs = s.records;
    let rec = record_of(recs, addr);
    let x = ReconnectRecordView { status: ReconnectStatus::Normal, ..rec };
    lemma_ensure(recs, addr, x);
    let e = ensure_record(recs, addr);
    let j = index_of(e, addr);
    lemma_index_update(e, j, x, addr);
    let r1 = e.update(j, x);
    lemma_ensure(r1, addr, x);
}

proof fn lemma_index_update(recs: Seq<ReconnectRecordView>, j: int, x: ReconnectRecordView, addr: SocketAddress)
    requires
        0 <= j < recs.len(),
        x.addr == recs[j].addr,
    ensures
        index_of(recs.update(j, x), addr) == index_of(recs, addr),
    decreases recs.len(),
{
    let u = recs.update(j, x);
    if j < recs.len() - 1 {
        assert(u.drop_last() =~= recs.drop_last().update(j, x));
        lemma_index_update(recs.drop_last(), j, x, addr);
    } else {
        assert(u.drop_last() =~= recs.drop_last());
    }
}

/// A player who leaves during a duel is held, and when its countdown runs
/// out before it came back, the held player is destroyed.
pub proof fn law_held_player_expelled_on_timeout(s: ReconnectStateView, addr: SocketAddress, name: Seq<char>, stage: DuelStage)
    requires
        s.held is None,
        !record_of(s.records, addr).counting_down,
        stage != DuelStage::Begin,
        stage != DuelStage::End,
    ensures
        spec_reconnect_transition(s, ReconnectEventView::PlayerDestroyed { addr, name, stage }).1
            == seq![ReconnectActionView::Hold, ReconnectActionView::TellRoom(name + " {disconnect_from_game}"@), ReconnectActionView::Block],
        spec_reconnect_transition(
            spec_reconnect_transition(s, ReconnectEventView::PlayerDestroyed { addr, name, stage }).0,
            ReconnectEventView::Timeout { addr },
        ).1 == seq![ReconnectActionView::ExpelHeld(addr)],
{
    let recs = s.records;
    let rec = record_of(recs, addr);
    let x = ReconnectRecordView { status: ReconnectStatus::Dropped, counting_down: true, ..rec };
    lemma_ensure(recs, addr, x);
    let e = ensure_record(recs, addr);
    let j = index_of(e, addr);
    lemma_index_update(e, j, x, addr);
}

/// A player held for a reconnect who comes back from the same IP address
/// and sends the deck it played with is shown the room, then takes its place
/// in the duel and is brought to where the duel stands; with another deck it
/// is refused.
pub proof fn law_rejoin(
    s: ReconnectStateView,
    addr: SocketAddress,
    name: Seq<char>,
    stage: DuelStage,
    back: SocketAddress,
    host_info: HostInfoView,
    deck: Seq<u8>,
    later: DuelStage,
)
    requires
        s.held is None,
        !record_of(s.records, addr).counting_down,
        stage != DuelStage::Begin,
        stage != DuelStage::End,
        spec_ip_equal(addr, back),
    ensures
        ({
            let s1 = spec_reconnect_transition(s, ReconnectEventView::PlayerDestroyed { addr, name, stage }).0;
            let (s2, shown) = spec_reconnect_transition(s1, ReconnectEventView::JoinGame { addr: back, host_info });
            let sent = spec_reconnect_transition(s2, ReconnectEventView::UpdateDeck { addr: back, deck, stage: later }).1;
            &&& shown == seq![
                ReconnectActionView::ShowRoom(host_info, name),
                ReconnectActionView::TellSender("{pre_reconnecting_to_room}"@),
                ReconnectActionView::AdmitSender,
                ReconnectActionView::Block,
            ]
            &&& deck == record_of(s.records, addr).used_deck ==> sent == seq![
                ReconnectActionView::TellSender("{reconnecting_to_room}"@),
                ReconnectActionView::MoveHeld,
                ReconnectActionView::Restore(spec_reconnect_step(later)),
                ReconnectActionView::Block,
            ]
            &&& deck != record_of(s.records, addr).used_deck ==> sent == seq![ReconnectActionView::RefuseDeck, ReconnectActionView::Block]
        }),
{
    let recs = s.records;
    let rec = record_of(recs, addr);
    let x = ReconnectRecordView { status: ReconnectStatus::Dropped, counting_down: true, ..rec };
    lemma_ensure(recs, addr, x);
    let e = ensure_record(recs, addr);
    let j = index_of(e, addr);
    lemma_index_update(e, j, x, addr);
    let r1 = e.update(j, x);
    let y = ReconnectRecordView { status: ReconnectStatus::Prepare, ..x };
    lemma_index_update(r1, j, y, addr);
}

proof fn lemma_mask_units()
    ensures
        utf16_of("********"@).len() == 8,
{
    reveal_strlit("********");
    crate::ygopro::message::string::lemma_bmp_utf16_len("********"@);
}

} // verus!
