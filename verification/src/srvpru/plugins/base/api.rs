//! An HTTP server that other plugins add routes to.
use vstd::prelude::*;

use crate::srvpru::plugins::PluginError;

use crate::srvpru::processor::{
    fresh_handler, spec_register_for_plugin, Handler, HandlerCondition, HandlerOccasion, Registry,
    RegistryView,
};
use crate::ygopro::message::{srvpru, MessageType};


verus! {

/// The registry after the plugin registered its handlers and then loaded
/// its configuration. A second start registers the handlers again before it
/// fails on the configuration.
pub open spec fn spec_init(r0: RegistryView) -> RegistryView {
    let r1 = spec_register_for_plugin(r0, fresh_handler(100, "api"@, HandlerOccasion::Before, HandlerCondition::MessageType(MessageType::SRVPRU(srvpru::MessageType::ServerStart))), "api"@);
    RegistryView { configured: r1.configured.insert("api"@), ..r1 }
}

/// Register the plugin's handlers with the registry.
pub fn init(registry: &mut Registry) -> (r: Result<(), PluginError>)
    requires
        old(registry).wf(),
    ensures
        final(registry).wf(),
        final(registry)@ == spec_init(old(registry)@),
        r == (if old(registry)@.configured.contains("api"@) { Err(PluginError::ConfigurationAlreadySet) } else { Ok(()) }),
{
    Handler::new(100, "api", HandlerOccasion::Before, HandlerCondition::MessageType(MessageType::SRVPRU(srvpru::MessageType::ServerStart))).register_for_plugin("api", registry);
    let ghost mid = registry@;
    if !registry.configure("api") {
        assert(mid.configured.insert("api"@) =~= mid.configured);
        return Err(PluginError::ConfigurationAlreadySet);
    }
    Ok(())
}


/// The port of the HTTP server when none is configured.
pub fn default_port() -> (r: u16)
    ensures
        r == 7933,
{
    7933
}

/// The plugin's configuration.
#[derive(Clone, Debug)]
pub struct Configuration {
    /// The port of the HTTP server.
    pub port: u16,
}

impl Default for Configuration {
    fn default() -> (r: Configuration)
        ensures
            r.port == 7933,
    {
        Configuration { port: default_port() }
    }
}

} // verus!
