//! Arena tools: permits and scores from an arena server.
use vstd::prelude::*;

use crate::srvpru::plugins::PluginError;

use crate::srvpru::processor::{
    fresh_handler, spec_register_for_plugin, Handler, HandlerCondition, HandlerOccasion, Registry,
    RegistryView,
};
use crate::ygopro::message::{ctos, srvpru, MessageType};
use crate::text::{decimal, push_decimal, push_str, string_of};

verus! {

/// The registry after the plugin loaded its configuration and registered
/// its handlers; unchanged where its configuration was already
/// loaded, as a plugin starts once.
pub open spec fn spec_init(r: RegistryView) -> RegistryView {
    if r.configured.contains("arena"@) {
        r
    } else {
        let r0 = RegistryView { configured: r.configured.insert("arena"@), ..r };
        let r1 = spec_register_for_plugin(r0, fresh_handler(100, "arena_init"@, HandlerOccasion::After, HandlerCondition::MessageType(MessageType::SRVPRU(srvpru::MessageType::ServerStart))), "arena"@);
        let r2 = spec_register_for_plugin(r1, fresh_handler(10, "arena"@, HandlerOccasion::Before, HandlerCondition::MessageType(MessageType::CTOS(ctos::MessageType::JoinGame))), "arena"@);
        r2
    }
}

/// Register the plugin's handlers with the registry.
pub fn init(registry: &mut Registry) -> (r: Result<(), PluginError>)
    requires
        old(registry).wf(),
    ensures
        final(registry).wf(),
        final(registry)@ == spec_init(old(registry)@),
        r == (if old(registry)@.configured.contains("arena"@) { Err(PluginError::ConfigurationAlreadySet) } else { Ok(()) }),
{
    if !registry.configure("arena") {
        return Err(PluginError::ConfigurationAlreadySet);
    }
    Handler::new(100, "arena_init", HandlerOccasion::After, HandlerCondition::MessageType(MessageType::SRVPRU(srvpru::MessageType::ServerStart))).register_for_plugin("arena", registry);
    Handler::new(10, "arena", HandlerOccasion::Before, HandlerCondition::MessageType(MessageType::CTOS(ctos::MessageType::JoinGame))).register_for_plugin("arena", registry);
    Ok(())
}


/// The plugin's configuration.
#[derive(Clone, Debug)]
pub struct Configuration {
    pub arena: String,
    pub init: Option<String>,
    pub permit: Option<String>,
    pub get_score: Option<String>,
    pub access_key: String,
}

/// How a player's arena rank is shown: a placeholder and the rank where it
/// has one, else `rank_blank`.
pub fn rank_text(arena_rank: u64) -> (r: String)
    ensures
        arena_rank > 0 ==> r@ == "{rank_arena}"@ + decimal(arena_rank as nat),
        arena_rank == 0 ==> r@ == "rank_blank"@,
{
    if arena_rank > 0 {
        let mut out: Vec<char> = Vec::new();
        push_str(&mut out, "{rank_arena}");
        push_decimal(&mut out, arena_rank);
        string_of(out.as_slice())
    } else {
        "rank_blank".to_owned()
    }
}

} // verus!
