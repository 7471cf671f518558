//! Players can't see their opponent's name.
use vstd::prelude::*;

use crate::srvpru::plugins::PluginError;

use crate::srvpru::processor::{
    fresh_handler, spec_register, spec_register_dependencies, spec_register_for_plugin, strs,
    Handler, HandlerCondition, HandlerOccasion, HandlerView, Registry, RegistryView,
};
use crate::ygopro::message::{ctos, stoc, srvpru, MessageType};
use crate::ygopro::constants::Netplayer;

verus! {

/// The registry after the plugin registered its handlers and dependencies.
pub open spec fn spec_init(r0: RegistryView) -> RegistryView {
    let r1 = spec_register_for_plugin(r0, fresh_handler(10, "anonymous_opponent_marker"@, HandlerOccasion::Before, HandlerCondition::MessageType(MessageType::CTOS(ctos::MessageType::PlayerInfo))), "anonymous_opponent"@);
    let r2 = spec_register_for_plugin(r1, fresh_handler(101, "anonymous_opponent_to_duelist"@, HandlerOccasion::Before, HandlerCondition::MessageType(MessageType::CTOS(ctos::MessageType::HsToDuelist))), "anonymous_opponent"@);
    let r3 = spec_register_for_plugin(r2, fresh_handler(101, "anonymous_opponent_revealer"@, HandlerOccasion::Before, HandlerCondition::MessageType(MessageType::STOC(stoc::MessageType::HsPlayerEnter))), "anonymous_opponent"@);
    let r4 = spec_register_for_plugin(r3, fresh_handler(200, "anonymous_opponent_recover"@, HandlerOccasion::Before, HandlerCondition::MessageType(MessageType::STOC(stoc::MessageType::DuelStart))), "anonymous_opponent"@);
    let r5 = spec_register(r4, (HandlerView { name: "anonymous_opponent_room_attachment_dropper"@, ..fresh_handler(100, ""@, HandlerOccasion::After, HandlerCondition::MessageType(MessageType::SRVPRU(srvpru::MessageType::RoomDestroy))) }));
    let r6 = spec_register_dependencies(r5, "anonymous_opponent"@, seq!["position_recorder"@]);
    r6
}

/// Register the plugin's handlers with the registry.
pub fn init(registry: &mut Registry) -> (r: Result<(), PluginError>)
    requires
        old(registry).wf(),
    ensures
        final(registry).wf(),
        final(registry)@ == spec_init(old(registry)@),
        r is Ok,
{
    Handler::new(10, "anonymous_opponent_marker", HandlerOccasion::Before, HandlerCondition::MessageType(MessageType::CTOS(ctos::MessageType::PlayerInfo))).register_for_plugin("anonymous_opponent", registry);
    Handler::new(101, "anonymous_opponent_to_duelist", HandlerOccasion::Before, HandlerCondition::MessageType(MessageType::CTOS(ctos::MessageType::HsToDuelist))).register_for_plugin("anonymous_opponent", registry);
    Handler::new(101, "anonymous_opponent_revealer", HandlerOccasion::Before, HandlerCondition::MessageType(MessageType::STOC(stoc::MessageType::HsPlayerEnter))).register_for_plugin("anonymous_opponent", registry);
    Handler::new(200, "anonymous_opponent_recover", HandlerOccasion::Before, HandlerCondition::MessageType(MessageType::STOC(stoc::MessageType::DuelStart))).register_for_plugin("anonymous_opponent", registry);
    Handler::new(100, "", HandlerOccasion::After, HandlerCondition::MessageType(MessageType::SRVPRU(srvpru::MessageType::RoomDestroy))).register_as("anonymous_opponent_room_attachment_dropper", registry);
    {
        let mut names: Vec<&str> = Vec::new();
        names.push("position_recorder");
        assert(strs(names@) =~= seq!["position_recorder"@]);
        Handler::register_dependencies("anonymous_opponent", names, registry);
    }
    Ok(())
}


/// The name that hides a player.
pub fn masked_name() -> (r: &'static str)
    ensures
        r@ == "******"@,
{
    "******"
}

/// What the revealer does with a player announced at a seat.
#[derive(Copy, Clone, Debug, PartialEq, Eq, Structural)]
pub enum RevealAction {
    /// The player itself: shown as it is.
    Keep,
    /// An observer who became a duelist: its real name is recorded and its
    /// mark removed.
    Record,
    /// An opponent: its real name is recorded and it is shown masked.
    Mask,
}

pub open spec fn spec_reveal_action(position: Netplayer, announced: Netplayer, moving_to_duelist: bool) -> RevealAction {
    if announced == position {
        RevealAction::Keep
    } else if position == Netplayer::Observer && moving_to_duelist {
        RevealAction::Record
    } else {
        RevealAction::Mask
    }
}

pub fn reveal_action(position: Netplayer, announced: Netplayer, moving_to_duelist: bool) -> (r: RevealAction)
    ensures
        r == spec_reveal_action(position, announced, moving_to_duelist),
{
    if announced == position {
        RevealAction::Keep
    } else if position == Netplayer::Observer && moving_to_duelist {
        RevealAction::Record
    } else {
        RevealAction::Mask
    }
}

} // verus!
