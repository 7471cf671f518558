//! Hold back the replay of each game and send all of them when the match ends.
use vstd::prelude::*;

use crate::srvpru::plugins::PluginError;

use crate::srvpru::processor::{
    fresh_handler, spec_register, spec_register_handlers, strs, Handler, HandlerCondition,
    HandlerOccasion, HandlerView, Registry, RegistryView,
};
use crate::ygopro::message::{stoc, srvpru, Direction, MessageType};
use crate::text::{decimal, push_decimal, push_str, string_of};
use crate::ygopro::constants::Mode;

verus! {

/// The registry after the plugin registered its handlers.
pub open spec fn spec_init(r0: RegistryView) -> RegistryView {
    let r1 = spec_register(r0, (HandlerView { name: "replay_interceptor"@, ..fresh_handler(100, ""@, HandlerOccasion::Before, HandlerCondition::MessageType(MessageType::STOC(stoc::MessageType::Replay))) }));
    let r2 = spec_register(r1, (HandlerView { name: "replay_sender"@, ..fresh_handler(100, ""@, HandlerOccasion::Before, HandlerCondition::MessageType(MessageType::STOC(stoc::MessageType::DuelEnd))) }));
    let r3 = spec_register(r2, (HandlerView { name: "delayed_replay_player_attachment_dropper"@, ..fresh_handler(100, ""@, HandlerOccasion::After, HandlerCondition::MessageType(MessageType::SRVPRU(srvpru::MessageType::PlayerDestroy))) }));
    let r4 = spec_register_handlers(r3, "delayed_replay"@, Direction::SRVPRU, seq!["delayed_replay_player_attachment_dropper"@]);
    let r5 = spec_register(r4, (HandlerView { name: "delayed_replay_player_attachment_mover"@, ..fresh_handler(100, ""@, HandlerOccasion::After, HandlerCondition::MessageType(MessageType::SRVPRU(srvpru::MessageType::PlayerMove))) }));
    let r6 = spec_register_handlers(r5, "delayed_replay"@, Direction::SRVPRU, seq!["delayed_replay_player_attachment_mover"@]);
    let r7 = spec_register_handlers(r6, "delayed_replay"@, Direction::STOC, seq!["replay_interceptor"@, "replay_sender"@]);
    r7
}

/// Register the plugin's handlers with the registry.
pub fn init(registry: &mut Registry) -> (r: Result<(), PluginError>)
    requires
        old(registry).wf(),
    ensures
        final(registry).wf(),
        final(registry)@ == spec_init(old(registry)@),
        r is Ok,
{
    Handler::new(100, "", HandlerOccasion::Before, HandlerCondition::MessageType(MessageType::STOC(stoc::MessageType::Replay))).register_as("replay_interceptor", registry);
    Handler::new(100, "", HandlerOccasion::Before, HandlerCondition::MessageType(MessageType::STOC(stoc::MessageType::DuelEnd))).register_as("replay_sender", registry);
    Handler::new(100, "", HandlerOccasion::After, HandlerCondition::MessageType(MessageType::SRVPRU(srvpru::MessageType::PlayerDestroy))).register_as("delayed_replay_player_attachment_dropper", registry);
    {
        let mut names: Vec<&str> = Vec::new();
        names.push("delayed_replay_player_attachment_dropper");
        assert(strs(names@) =~= seq!["delayed_replay_player_attachment_dropper"@]);
        Handler::register_handlers("delayed_replay", Direction::SRVPRU, names, registry);
    }
    Handler::new(100, "", HandlerOccasion::After, HandlerCondition::MessageType(MessageType::SRVPRU(srvpru::MessageType::PlayerMove))).register_as("delayed_replay_player_attachment_mover", registry);
    {
        let mut names: Vec<&str> = Vec::new();
        names.push("delayed_replay_player_attachment_mover");
        assert(strs(names@) =~= seq!["delayed_replay_player_attachment_mover"@]);
        Handler::register_handlers("delayed_replay", Direction::SRVPRU, names, registry);
    }
    {
        let mut names: Vec<&str> = Vec::new();
        names.push("replay_interceptor");
        names.push("replay_sender");
        assert(strs(names@) =~= seq!["replay_interceptor"@, "replay_sender"@]);
        Handler::register_handlers("delayed_replay", Direction::STOC, names, registry);
    }
    Ok(())
}


/// Whether a replay is held back: only in a match, whose games are sent
/// together at its end.
pub fn intercepts(mode: Mode) -> (r: bool)
    ensures
        r == (mode == Mode::Match),
{
    match mode {
        Mode::Match => true,
        _ => false,
    }
}

/// The line sent before the replay at `index` (counted from zero).
pub fn replay_hint(index: usize) -> (r: String)
    requires
        index < usize::MAX,
    ensures
        r@ == "{replay_hint_part1} "@ + decimal((index + 1) as nat) + " {replay_hint_part2}"@,
{
    let mut out: Vec<char> = Vec::new();
    push_str(&mut out, "{replay_hint_part1} ");
    push_decimal(&mut out, (index + 1) as u64);
    push_str(&mut out, " {replay_hint_part2}");
    string_of(out.as_slice())
}

} // verus!
