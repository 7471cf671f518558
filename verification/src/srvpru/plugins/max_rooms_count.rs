//! Refuse new rooms beyond a limit.
use vstd::prelude::*;

use crate::srvpru::plugins::PluginError;

use crate::srvpru::processor::{
    fresh_handler, spec_register_for_plugin, Handler, HandlerCondition, HandlerOccasion, Registry,
    RegistryView,
};
use crate::ygopro::message::{srvpru, MessageType};


verus! {

/// The registry after the plugin loaded its configuration and registered
/// its handlers; unchanged where its configuration was already
/// loaded, as a plugin starts once.
pub open spec fn spec_init(r: RegistryView) -> RegistryView {
    if r.configured.contains("max_rooms_count"@) {
        r
    } else {
        let r0 = RegistryView { configured: r.configured.insert("max_rooms_count"@), ..r };
        let r1 = spec_register_for_plugin(r0, fresh_handler(1, "max_rooms_count"@, HandlerOccasion::Before, HandlerCondition::MessageType(MessageType::SRVPRU(srvpru::MessageType::RoomCreated))), "max_rooms_count"@);
        r1
    }
}

/// Register the plugin's handlers with the registry.
pub fn init(registry: &mut Registry) -> (r: Result<(), PluginError>)
    requires
        old(registry).wf(),
    ensures
        final(registry).wf(),
        final(registry)@ == spec_init(old(registry)@),
        r == (if old(registry)@.configured.contains("max_rooms_count"@) { Err(PluginError::ConfigurationAlreadySet) } else { Ok(()) }),
{
    if !registry.configure("max_rooms_count") {
        return Err(PluginError::ConfigurationAlreadySet);
    }
    Handler::new(1, "max_rooms_count", HandlerOccasion::Before, HandlerCondition::MessageType(MessageType::SRVPRU(srvpru::MessageType::RoomCreated))).register_for_plugin("max_rooms_count", registry);
    Ok(())
}


/// The plugin's configuration.
#[derive(Clone, Debug)]
pub struct Configuration {
    /// The most rooms at a time; 0 for no limit.
    pub max_rooms_count: usize,
}

impl Default for Configuration {
    fn default() -> (r: Configuration)
        ensures
            r.max_rooms_count == 0,
    {
        Configuration { max_rooms_count: 0 }
    }
}

/// Whether a new room is refused when `rooms_count` rooms exist.
pub fn should_block(configuration: &Configuration, rooms_count: usize) -> (r: bool)
    ensures
        r == (configuration.max_rooms_count > 0 && rooms_count >= configuration.max_rooms_count),
{
    configuration.max_rooms_count > 0 && rooms_count >= configuration.max_rooms_count
}

} // verus!
