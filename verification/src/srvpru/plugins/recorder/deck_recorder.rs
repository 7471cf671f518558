//! Record the decks that each player used.
use vstd::prelude::*;

use crate::srvpru::plugins::PluginError;

use crate::srvpru::processor::{
    fresh_handler, spec_register, spec_register_handlers, strs, Handler, HandlerCondition,
    HandlerOccasion, HandlerView, Registry, RegistryView,
};
use crate::ygopro::message::{ctos, srvpru, Direction, MessageType};

verus! {

/// The registry after the plugin registered its handlers.
pub open spec fn spec_init(r0: RegistryView) -> RegistryView {
    let r1 = spec_register(r0, fresh_handler(100, "deck_recorder"@, HandlerOccasion::After, HandlerCondition::MessageType(MessageType::CTOS(ctos::MessageType::UpdateDeck))));
    let r2 = spec_register(r1, (HandlerView { name: "deck_recorder_player_attachment_dropper"@, ..fresh_handler(100, ""@, HandlerOccasion::After, HandlerCondition::MessageType(MessageType::SRVPRU(srvpru::MessageType::PlayerDestroy))) }));
    let r3 = spec_register_handlers(r2, "deck_recorder"@, Direction::SRVPRU, seq!["deck_recorder_player_attachment_dropper"@]);
    let r4 = spec_register(r3, (HandlerView { name: "deck_recorder_player_attachment_mover"@, ..fresh_handler(100, ""@, HandlerOccasion::After, HandlerCondition::MessageType(MessageType::SRVPRU(srvpru::MessageType::PlayerMove))) }));
    let r5 = spec_register_handlers(r4, "deck_recorder"@, Direction::SRVPRU, seq!["deck_recorder_player_attachment_mover"@]);
    let r6 = spec_register_handlers(r5, "deck_recorder"@, Direction::CTOS, seq!["deck_recorder"@]);
    r6
}

/// Register the plugin's handlers with the registry.
pub fn init(registry: &mut Registry) -> (r: Result<(), PluginError>)
    requires
        old(registry).wf(),
    ensures
        final(registry).wf(),
        final(registry)@ == spec_init(old(registry)@),
        r is Ok,
{
    Handler::new(100, "deck_recorder", HandlerOccasion::After, HandlerCondition::MessageType(MessageType::CTOS(ctos::MessageType::UpdateDeck))).register(registry);
    Handler::new(100, "", HandlerOccasion::After, HandlerCondition::MessageType(MessageType::SRVPRU(srvpru::MessageType::PlayerDestroy))).register_as("deck_recorder_player_attachment_dropper", registry);
    {
        let mut names: Vec<&str> = Vec::new();
        names.push("deck_recorder_player_attachment_dropper");
        assert(strs(names@) =~= seq!["deck_recorder_player_attachment_dropper"@]);
        Handler::register_handlers("deck_recorder", Direction::SRVPRU, names, registry);
    }
    Handler::new(100, "", HandlerOccasion::After, HandlerCondition::MessageType(MessageType::SRVPRU(srvpru::MessageType::PlayerMove))).register_as("deck_recorder_player_attachment_mover", registry);
    {
        let mut names: Vec<&str> = Vec::new();
        names.push("deck_recorder_player_attachment_mover");
        assert(strs(names@) =~= seq!["deck_recorder_player_attachment_mover"@]);
        Handler::register_handlers("deck_recorder", Direction::SRVPRU, names, registry);
    }
    {
        let mut names: Vec<&str> = Vec::new();
        names.push("deck_recorder");
        assert(strs(names@) =~= seq!["deck_recorder"@]);
        Handler::register_handlers("deck_recorder", Direction::CTOS, names, registry);
    }
    Ok(())
}

} // verus!
