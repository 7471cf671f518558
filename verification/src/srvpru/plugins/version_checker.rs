//! Keep clients of an older version out.
use vstd::prelude::*;

use crate::srvpru::plugins::PluginError;

use crate::srvpru::processor::{
    fresh_handler, spec_register, spec_register_for_plugin, spec_register_handlers, strs, Handler,
    HandlerCondition, HandlerOccasion, Registry, RegistryView,
};
use crate::ygopro::message::{ctos, srvpru, Direction, MessageType};


verus! {

/// The registry after the plugin registered its handlers.
pub open spec fn spec_init(r0: RegistryView) -> RegistryView {
    let r1 = spec_register_for_plugin(r0, fresh_handler(100, "version_checker_configuration_reloader"@, HandlerOccasion::Before, HandlerCondition::MessageType(MessageType::SRVPRU(srvpru::MessageType::Reload))), "version_checker"@);
    let r2 = spec_register(r1, fresh_handler(2, "version_checker"@, HandlerOccasion::Before, HandlerCondition::MessageType(MessageType::CTOS(ctos::MessageType::JoinGame))));
    let r3 = spec_register_handlers(r2, "version_checker"@, Direction::CTOS, seq!["version_checker"@]);
    r3
}

/// Register the plugin's handlers with the registry.
pub fn init(registry: &mut Registry) -> (r: Result<(), PluginError>)
    requires
        old(registry).wf(),
    ensures
        final(registry).wf(),
        final(registry)@ == spec_init(old(registry)@),
        r is Ok,
{
    Handler::new(100, "version_checker_configuration_reloader", HandlerOccasion::Before, HandlerCondition::MessageType(MessageType::SRVPRU(srvpru::MessageType::Reload))).register_for_plugin("version_checker", registry);
    Handler::new(2, "version_checker", HandlerOccasion::Before, HandlerCondition::MessageType(MessageType::CTOS(ctos::MessageType::JoinGame))).register(registry);
    {
        let mut names: Vec<&str> = Vec::new();
        names.push("version_checker");
        assert(strs(names@) =~= seq!["version_checker"@]);
        Handler::register_handlers("version_checker", Direction::CTOS, names, registry);
    }
    Ok(())
}


/// The plugin's configuration.
#[derive(Clone, Debug)]
pub struct Configuration {
    /// The oldest client version that may join.
    pub version: u16,
}

/// Whether a client of `client_version` is too old to join.
pub fn is_outdated(client_version: u16, configuration: &Configuration) -> (r: bool)
    ensures
        r == (client_version < configuration.version),
{
    client_version < configuration.version
}

} // verus!
