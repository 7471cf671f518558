//! Broadcast the list of rooms to web socket listeners.
use vstd::prelude::*;

use crate::srvpru::plugins::PluginError;

use crate::srvpru::processor::{
    fresh_handler, spec_register, spec_register_dependencies, spec_register_handlers, strs,
    Handler, HandlerCondition, HandlerOccasion, Registry, RegistryView,
};
use crate::ygopro::message::{ctos, srvpru, Direction, MessageType};


verus! {

/// The registry after the plugin loaded its configuration and registered
/// its handlers and dependencies; unchanged where its configuration was already
/// loaded, as a plugin starts once.
pub open spec fn spec_init(r: RegistryView) -> RegistryView {
    if r.configured.contains("room_list"@) {
        r
    } else {
        let r0 = RegistryView { configured: r.configured.insert("room_list"@), ..r };
        let r1 = spec_register_dependencies(r0, "room_list"@, seq!["api"@]);
        let r2 = spec_register(r1, fresh_handler(255, "room_list_create_listener"@, HandlerOccasion::Before, HandlerCondition::MessageType(MessageType::SRVPRU(srvpru::MessageType::RoomCreated))));
        let r3 = spec_register(r2, fresh_handler(95, "room_list_destroy_listener"@, HandlerOccasion::Before, HandlerCondition::MessageType(MessageType::SRVPRU(srvpru::MessageType::RoomDestroy))));
        let r4 = spec_register(r3, fresh_handler(255, "room_list_update_listener"@, HandlerOccasion::Before, HandlerCondition::MessageType(MessageType::CTOS(ctos::MessageType::JoinGame))));
        let r5 = spec_register_handlers(r4, "room_list"@, Direction::SRVPRU, seq!["room_list_create_listener"@, "room_list_destroy_listener"@]);
        let r6 = spec_register_handlers(r5, "room_list_update_listener"@, Direction::CTOS, seq!["room_list_update_listener"@]);
        r6
    }
}

/// Register the plugin's handlers with the registry.
pub fn init(registry: &mut Registry) -> (r: Result<(), PluginError>)
    requires
        old(registry).wf(),
    ensures
        final(registry).wf(),
        final(registry)@ == spec_init(old(registry)@),
        r == (if old(registry)@.configured.contains("room_list"@) { Err(PluginError::ConfigurationAlreadySet) } else { Ok(()) }),
{
    if !registry.configure("room_list") {
        return Err(PluginError::ConfigurationAlreadySet);
    }
    {
        let mut names: Vec<&str> = Vec::new();
        names.push("api");
        assert(strs(names@) =~= seq!["api"@]);
        Handler::register_dependencies("room_list", names, registry);
    }
    Handler::new(255, "room_list_create_listener", HandlerOccasion::Before, HandlerCondition::MessageType(MessageType::SRVPRU(srvpru::MessageType::RoomCreated))).register(registry);
    Handler::new(95, "room_list_destroy_listener", HandlerOccasion::Before, HandlerCondition::MessageType(MessageType::SRVPRU(srvpru::MessageType::RoomDestroy))).register(registry);
    Handler::new(255, "room_list_update_listener", HandlerOccasion::Before, HandlerCondition::MessageType(MessageType::CTOS(ctos::MessageType::JoinGame))).register(registry);
    {
        let mut names: Vec<&str> = Vec::new();
        names.push("room_list_create_listener");
        names.push("room_list_destroy_listener");
        assert(strs(names@) =~= seq!["room_list_create_listener"@, "room_list_destroy_listener"@]);
        Handler::register_handlers("room_list", Direction::SRVPRU, names, registry);
    }
    {
        let mut names: Vec<&str> = Vec::new();
        names.push("room_list_update_listener");
        assert(strs(names@) =~= seq!["room_list_update_listener"@]);
        Handler::register_handlers("room_list_update_listener", Direction::CTOS, names, registry);
    }
    Ok(())
}


/// The port of the room list when none is configured.
pub fn default_port() -> (r: u32)
    ensures
        r == 7922,
{
    7922
}

/// The plugin's configuration.
#[derive(Clone, Debug)]
pub struct Configuration {
    pub port: u32,
}

impl Default for Configuration {
    fn default() -> (r: Configuration)
        ensures
            r.port == 7922,
    {
        Configuration { port: default_port() }
    }
}

} // verus!
