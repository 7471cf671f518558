//! Force the host to start, and force siding to end in time.
use vstd::prelude::*;

use crate::srvpru::plugins::PluginError;

use crate::srvpru::processor::{
    fresh_handler, spec_register, spec_register_dependencies, spec_register_handlers, strs,
    Handler, HandlerCondition, HandlerOccasion, HandlerView, Registry, RegistryView,
};
use crate::ygopro::message::{ctos, stoc, srvpru, Direction, MessageType};
use crate::text::{decimal, push_decimal, push_str, string_of};
use crate::ygopro::constants::Colors;

verus! {

/// The registry after the plugin loaded its configuration and registered
/// its handlers and dependencies; unchanged where its configuration was already
/// loaded, as a plugin starts once.
pub open spec fn spec_init(r: RegistryView) -> RegistryView {
    if r.configured.contains("must_start"@) {
        r
    } else {
        let r0 = RegistryView { configured: r.configured.insert("must_start"@), ..r };
        let r1 = spec_register_dependencies(r0, "must_start"@, seq!["position_recorder"@]);
        let r2 = spec_register(r1, fresh_handler(100, "must_start_game"@, HandlerOccasion::After, HandlerCondition::MessageType(MessageType::CTOS(ctos::MessageType::HsReady))));
        let r3 = spec_register(r2, fresh_handler(100, "must_start_game_not_ready"@, HandlerOccasion::After, HandlerCondition::MessageType(MessageType::CTOS(ctos::MessageType::HsNotReady))));
        let r4 = spec_register(r3, fresh_handler(254, "must_start_game_started"@, HandlerOccasion::After, HandlerCondition::MessageType(MessageType::CTOS(ctos::MessageType::HsStart))));
        let r5 = spec_register(r4, fresh_handler(100, "must_change_side"@, HandlerOccasion::After, HandlerCondition::MessageType(MessageType::STOC(stoc::MessageType::ChangeSide))));
        let r6 = spec_register(r5, fresh_handler(100, "must_change_side_finished"@, HandlerOccasion::After, HandlerCondition::MessageType(MessageType::STOC(stoc::MessageType::DuelStart))));
        let r7 = spec_register(r6, (HandlerView { name: "must_start_room_attachment_dropper"@, ..fresh_handler(100, ""@, HandlerOccasion::After, HandlerCondition::MessageType(MessageType::SRVPRU(srvpru::MessageType::RoomDestroy))) }));
        let r8 = spec_register(r7, (HandlerView { name: "must_start_player_attachment_dropper"@, ..fresh_handler(100, ""@, HandlerOccasion::After, HandlerCondition::MessageType(MessageType::SRVPRU(srvpru::MessageType::PlayerDestroy))) }));
        let r9 = spec_register_handlers(r8, "must_start"@, Direction::SRVPRU, seq!["must_start_player_attachment_dropper"@]);
        let r10 = spec_register(r9, (HandlerView { name: "must_start_player_attachment_mover"@, ..fresh_handler(100, ""@, HandlerOccasion::After, HandlerCondition::MessageType(MessageType::SRVPRU(srvpru::MessageType::PlayerMove))) }));
        let r11 = spec_register_handlers(r10, "must_start"@, Direction::SRVPRU, seq!["must_start_player_attachment_mover"@]);
        let r12 = spec_register_handlers(r11, "must_start"@, Direction::CTOS, seq!["must_start_game"@, "must_start_game_not_ready"@, "must_start_game_started"@]);
        let r13 = spec_register_handlers(r12, "must_start"@, Direction::STOC, seq!["must_change_side_finished"@, "must_change_side"@]);
        r13
    }
}

/// Register the plugin's handlers with the registry.
pub fn init(registry: &mut Registry) -> (r: Result<(), PluginError>)
    requires
        old(registry).wf(),
    ensures
        final(registry).wf(),
        final(registry)@ == spec_init(old(registry)@),
        r == (if old(registry)@.configured.contains("must_start"@) { Err(PluginError::ConfigurationAlreadySet) } else { Ok(()) }),
{
    if !registry.configure("must_start") {
        return Err(PluginError::ConfigurationAlreadySet);
    }
    {
        let mut names: Vec<&str> = Vec::new();
        names.push("position_recorder");
        assert(strs(names@) =~= seq!["position_recorder"@]);
        Handler::register_dependencies("must_start", names, registry);
    }
    Handler::new(100, "must_start_game", HandlerOccasion::After, HandlerCondition::MessageType(MessageType::CTOS(ctos::MessageType::HsReady))).register(registry);
    Handler::new(100, "must_start_game_not_ready", HandlerOccasion::After, HandlerCondition::MessageType(MessageType::CTOS(ctos::MessageType::HsNotReady))).register(registry);
    Handler::new(254, "must_start_game_started", HandlerOccasion::After, HandlerCondition::MessageType(MessageType::CTOS(ctos::MessageType::HsStart))).register(registry);
    Handler::new(100, "must_change_side", HandlerOccasion::After, HandlerCondition::MessageType(MessageType::STOC(stoc::MessageType::ChangeSide))).register(registry);
    Handler::new(100, "must_change_side_finished", HandlerOccasion::After, HandlerCondition::MessageType(MessageType::STOC(stoc::MessageType::DuelStart))).register(registry);
    Handler::new(100, "", HandlerOccasion::After, HandlerCondition::MessageType(MessageType::SRVPRU(srvpru::MessageType::RoomDestroy))).register_as("must_start_room_attachment_dropper", registry);
    Handler::new(100, "", HandlerOccasion::After, HandlerCondition::MessageType(MessageType::SRVPRU(srvpru::MessageType::PlayerDestroy))).register_as("must_start_player_attachment_dropper", registry);
    {
        let mut names: Vec<&str> = Vec::new();
        names.push("must_start_player_attachment_dropper");
        assert(strs(names@) =~= seq!["must_start_player_attachment_dropper"@]);
        Handler::register_handlers("must_start", Direction::SRVPRU, names, registry);
    }
    Handler::new(100, "", HandlerOccasion::After, HandlerCondition::MessageType(MessageType::SRVPRU(srvpru::MessageType::PlayerMove))).register_as("must_start_player_attachment_mover", registry);
    {
        let mut names: Vec<&str> = Vec::new();
        names.push("must_start_player_attachment_mover");
        assert(strs(names@) =~= seq!["must_start_player_attachment_mover"@]);
        Handler::register_handlers("must_start", Direction::SRVPRU, names, registry);
    }
    {
        let mut names: Vec<&str> = Vec::new();
        names.push("must_start_game");
        names.push("must_start_game_not_ready");
        names.push("must_start_game_started");
        assert(strs(names@) =~= seq!["must_start_game"@, "must_start_game_not_ready"@, "must_start_game_started"@]);
        Handler::register_handlers("must_start", Direction::CTOS, names, registry);
    }
    {
        let mut names: Vec<&str> = Vec::new();
        names.push("must_change_side_finished");
        names.push("must_change_side");
        assert(strs(names@) =~= seq!["must_change_side_finished"@, "must_change_side"@]);
        Handler::register_handlers("must_start", Direction::STOC, names, registry);
    }
    Ok(())
}


/// The plugin's configuration.
#[derive(Clone, Debug)]
pub struct Configuration {
    /// Seconds left at each warning to the host, in decreasing order.
    pub start_game: Vec<u64>,
    /// Minutes that siding may take.
    pub change_side: u64,
}

/// One warning of the countdown that makes a host start: the seconds left,
/// the colour of the warning, and the seconds until the next step.
#[derive(Copy, Clone, Debug, PartialEq, Eq, Structural)]
pub struct CountdownStep {
    pub rest_time: u64,
    pub color: Colors,
    pub wait: u64,
}

/// The countdown: a warning at each configured time, in blue until the
/// last, which is red and waits out its whole time before the host is
/// expelled.
pub open spec fn spec_countdown(start_game: Seq<u64>) -> Seq<CountdownStep> {
    Seq::new(start_game.len(), |p: int| if p == start_game.len() - 1 {
        CountdownStep { rest_time: start_game[p], color: Colors::Red, wait: start_game[p] }
    } else {
        CountdownStep { rest_time: start_game[p], color: Colors::Babyblue, wait: (start_game[p] - start_game[p + 1]) as u64 }
    })
}

pub fn countdown_plan(start_game: &[u64]) -> (r: Vec<CountdownStep>)
    requires
        start_game@.len() >= 1,
        forall|p: int| 0 <= p < start_game@.len() - 1 ==> #[trigger] start_game@[p] >= start_game@[p + 1],
    ensures
        r@ == spec_countdown(start_game@),
{
    let mut out: Vec<CountdownStep> = Vec::new();
    let mut position: usize = 0;
    while position < start_game.len()
        invariant
            start_game@.len() >= 1,
            forall|p: int| 0 <= p < start_game@.len() - 1 ==> #[trigger] start_game@[p] >= start_game@[p + 1],
            position <= start_game@.len(),
            out@ == spec_countdown(start_game@).take(position as int),
        decreases start_game@.len() - position,
    {
        let rest_time = start_game[position];
        if position == start_game.len() - 1 {
            out.push(CountdownStep { rest_time, color: Colors::Red, wait: rest_time });
        } else {
            out.push(CountdownStep { rest_time, color: Colors::Babyblue, wait: rest_time - start_game[position + 1] });
        }
        position = position + 1;
        assert(out@ =~= spec_countdown(start_game@).take(position as int));
    }
    assert(spec_countdown(start_game@).take(position as int) =~= spec_countdown(start_game@));
    out
}

/// The warning that counts down.
pub fn count_down_text(rest_time: u64) -> (r: String)
    ensures
        r@ == decimal(rest_time as nat) + "{kick_count_down}"@,
{
    let mut out: Vec<char> = Vec::new();
    push_decimal(&mut out, rest_time);
    push_str(&mut out, "{kick_count_down}");
    string_of(out.as_slice())
}

/// The line that tells a room its host was expelled.
pub fn kicked_text(host_name: &str) -> (r: String)
    ensures
        r@ == host_name@ + " {kicked_by_system}"@,
{
    let mut out: Vec<char> = Vec::new();
    push_str(&mut out, host_name);
    push_str(&mut out, " {kicked_by_system}");
    string_of(out.as_slice())
}

/// The line that tells a player how long siding may take.
pub fn side_timeout_text(configuration: &Configuration) -> (r: String)
    ensures
        r@ == "{side_timeout_part1}"@ + decimal(configuration.change_side as nat) + "{side_timeout_part2}"@,
{
    let mut out: Vec<char> = Vec::new();
    push_str(&mut out, "{side_timeout_part1}");
    push_decimal(&mut out, configuration.change_side);
    push_str(&mut out, "{side_timeout_part2}");
    string_of(out.as_slice())
}

/// Seconds that siding may take.
pub fn side_wait_seconds(configuration: &Configuration) -> (r: u64)
    requires
        configuration.change_side * 60 <= u64::MAX,
    ensures
        r == configuration.change_side * 60,
{
    configuration.change_side * 60
}

/// Whether every player of a room is ready: each is the host or has said it
/// is ready. Each seat gives whether its player is the host and what it
/// last said, if anything.
pub fn is_all_ready(seats: &[(bool, Option<bool>)]) -> (r: bool)
    ensures
        r == forall|i: int| 0 <= i < seats@.len() ==> (#[trigger] seats@[i]).0 || seats@[i].1 == Some(true),
{
    let mut i: usize = 0;
    while i < seats.len()
        invariant
            i <= seats@.len(),
            forall|j: int| 0 <= j < i ==> (#[trigger] seats@[j]).0 || seats@[j].1 == Some(true),
        decreases seats@.len() - i,
    {
        let (host, ready) = seats[i];
        let ok = host || match ready {
            Some(b) => b,
            None => false,
        };
        if !ok {
            assert(!(seats@[i as int].0 || seats@[i as int].1 == Some(true)));
            return false;
        }
        i = i + 1;
    }
    true
}

} // verus!
