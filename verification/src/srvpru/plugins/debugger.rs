//! Handlers that log each message.
use vstd::prelude::*;

use crate::srvpru::plugins::PluginError;

use crate::srvpru::processor::{
    fresh_handler, spec_register, spec_register_handlers, strs, Handler, HandlerCondition,
    HandlerOccasion, Registry, RegistryView,
};
use crate::ygopro::message::{Direction, MessageType};

verus! {

/// The registry after the plugin registered its handlers.
pub open spec fn spec_init(r0: RegistryView) -> RegistryView {
    let r1 = spec_register(r0, fresh_handler(0, "ctos_debugger"@, HandlerOccasion::Before, HandlerCondition::Always));
    let r2 = spec_register(r1, fresh_handler(0, "stoc_debugger"@, HandlerOccasion::Before, HandlerCondition::Always));
    let r3 = spec_register(r2, fresh_handler(0, "internal_debugger"@, HandlerOccasion::Before, HandlerCondition::Always));
    let r4 = spec_register_handlers(r3, "debugger"@, Direction::CTOS, seq!["ctos_debugger"@]);
    let r5 = spec_register_handlers(r4, "debugger"@, Direction::STOC, seq!["stoc_debugger"@]);
    let r6 = spec_register_handlers(r5, "debugger"@, Direction::SRVPRU, seq!["internal_debugger"@]);
    r6
}

/// Register the plugin's handlers with the registry.
pub fn init(registry: &mut Registry) -> (r: Result<(), PluginError>)
    requires
        old(registry).wf(),
    ensures
        final(registry).wf(),
        final(registry)@ == spec_init(old(registry)@),
        r is Ok,
{
    Handler::new(0, "ctos_debugger", HandlerOccasion::Before, HandlerCondition::Always).register(registry);
    Handler::new(0, "stoc_debugger", HandlerOccasion::Before, HandlerCondition::Always).register(registry);
    Handler::new(0, "internal_debugger", HandlerOccasion::Before, HandlerCondition::Always).register(registry);
    {
        let mut names: Vec<&str> = Vec::new();
        names.push("ctos_debugger");
        assert(strs(names@) =~= seq!["ctos_debugger"@]);
        Handler::register_handlers("debugger", Direction::CTOS, names, registry);
    }
    {
        let mut names: Vec<&str> = Vec::new();
        names.push("stoc_debugger");
        assert(strs(names@) =~= seq!["stoc_debugger"@]);
        Handler::register_handlers("debugger", Direction::STOC, names, registry);
    }
    {
        let mut names: Vec<&str> = Vec::new();
        names.push("internal_debugger");
        assert(strs(names@) =~= seq!["internal_debugger"@]);
        Handler::register_handlers("debugger", Direction::SRVPRU, names, registry);
    }
    Ok(())
}


/// How a message type is shown in the log: unknown types as `[unknown]`.
pub fn message_type_name(message_type: Option<MessageType>) -> (r: String)
    ensures
        r@ == match message_type {
            None => "[unknown]"@,
            Some(t) => t.spec_text(),
        },
{
    match message_type {
        None => "[unknown]".to_owned(),
        Some(t) => t.to_string(),
    }
}

} // verus!
