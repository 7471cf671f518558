//! Greet a player who joins.
use vstd::prelude::*;

use crate::srvpru::plugins::PluginError;

use crate::srvpru::processor::{
    fresh_handler, spec_register, spec_register_handlers, strs, Handler, HandlerCondition,
    HandlerOccasion, Registry, RegistryView,
};
use crate::ygopro::message::{ctos, Direction, MessageType};

verus! {

/// The registry after the plugin loaded its configuration and registered
/// its handlers; unchanged where its configuration was already
/// loaded, as a plugin starts once.
pub open spec fn spec_init(r: RegistryView) -> RegistryView {
    if r.configured.contains("welcome"@) {
        r
    } else {
        let r0 = RegistryView { configured: r.configured.insert("welcome"@), ..r };
        let r1 = spec_register(r0, fresh_handler(4, "welcome"@, HandlerOccasion::After, HandlerCondition::MessageType(MessageType::CTOS(ctos::MessageType::JoinGame))));
        let r2 = spec_register_handlers(r1, "welcome"@, Direction::CTOS, seq!["welcome"@]);
        r2
    }
}

/// Register the plugin's handlers with the registry.
pub fn init(registry: &mut Registry) -> (r: Result<(), PluginError>)
    requires
        old(registry).wf(),
    ensures
        final(registry).wf(),
        final(registry)@ == spec_init(old(registry)@),
        r == (if old(registry)@.configured.contains("welcome"@) { Err(PluginError::ConfigurationAlreadySet) } else { Ok(()) }),
{
    if !registry.configure("welcome") {
        return Err(PluginError::ConfigurationAlreadySet);
    }
    Handler::new(4, "welcome", HandlerOccasion::After, HandlerCondition::MessageType(MessageType::CTOS(ctos::MessageType::JoinGame))).register(registry);
    {
        let mut names: Vec<&str> = Vec::new();
        names.push("welcome");
        assert(strs(names@) =~= seq!["welcome"@]);
        Handler::register_handlers("welcome", Direction::CTOS, names, registry);
    }
    Ok(())
}


/// The greeting when none is configured.
pub fn default_welcome_message() -> (r: String)
    ensures
        r@ == "Srvpru Server"@,
{
    "Srvpru Server".to_owned()
}

/// The plugin's configuration.
#[derive(Clone, Debug)]
pub struct Configuration {
    /// Sent to each player who joins.
    pub welcome_message: String,
}

impl Default for Configuration {
    fn default() -> (r: Configuration)
        ensures
            r.welcome_message@ == "Srvpru Server"@,
    {
        Configuration { welcome_message: default_welcome_message() }
    }
}

} // verus!
