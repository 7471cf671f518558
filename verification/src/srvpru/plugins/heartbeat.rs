//! Expel a client that does not answer the heartbeat in time.
use vstd::prelude::*;

use crate::srvpru::plugins::PluginError;

use crate::srvpru::processor::{
    fresh_handler, spec_register, spec_register_dependencies, spec_register_for_plugin,
    spec_register_handlers, strs, Handler, HandlerCondition, HandlerOccasion, Registry,
    RegistryView,
};
use crate::ygopro::message::{ctos, gm, stoc, Direction, MessageType};
use crate::ygopro::constants::Location;

verus! {

/// The registry after the plugin loaded its configuration and registered
/// its handlers and dependencies; unchanged where its configuration was already
/// loaded, as a plugin starts once.
pub open spec fn spec_init(r: RegistryView) -> RegistryView {
    if r.configured.contains("heartbeat"@) {
        r
    } else {
        let r0 = RegistryView { configured: r.configured.insert("heartbeat"@), ..r };
        let r1 = spec_register_for_plugin(r0, fresh_handler(100, "heartbeat_register"@, HandlerOccasion::After, HandlerCondition::MessageType(MessageType::STOC(stoc::MessageType::DuelStart))), "heartbeat"@);
        let r2 = spec_register_for_plugin(r1, fresh_handler(100, "heartbeat"@, HandlerOccasion::After, HandlerCondition::MessageType(MessageType::CTOS(ctos::MessageType::TimeConfirm))), "heartbeat"@);
        let r3 = spec_register_for_plugin(r2, fresh_handler(100, "heartbeat_diastole"@, HandlerOccasion::After, HandlerCondition::MessageType(MessageType::STOC(stoc::MessageType::TimeLimit))), "heartbeat"@);
        let r4 = spec_register_for_plugin(r3, fresh_handler(100, "heartbeat_exempt_confirm"@, HandlerOccasion::Before, HandlerCondition::MessageType(MessageType::GM(gm::MessageType::ConfirmCards))), "heartbeat"@);
        let r5 = spec_register_for_plugin(r4, fresh_handler(100, "heartbeat_exempt_chain"@, HandlerOccasion::Before, HandlerCondition::MessageType(MessageType::GM(gm::MessageType::ChainSolving))), "heartbeat"@);
        let r6 = spec_register(r5, fresh_handler(101, "heartbeat_exempt_resolved"@, HandlerOccasion::Before, HandlerCondition::Dynamic));
        let r7 = spec_register_handlers(r6, "heartbeat"@, Direction::STOC, seq!["heartbeat_exempt_resolved"@]);
        let r8 = spec_register_dependencies(r7, "heartbeat"@, seq!["position_recorder"@]);
        r8
    }
}

/// Register the plugin's handlers with the registry.
pub fn init(registry: &mut Registry) -> (r: Result<(), PluginError>)
    requires
        old(registry).wf(),
    ensures
        final(registry).wf(),
        final(registry)@ == spec_init(old(registry)@),
        r == (if old(registry)@.configured.contains("heartbeat"@) { Err(PluginError::ConfigurationAlreadySet) } else { Ok(()) }),
{
    if !registry.configure("heartbeat") {
        return Err(PluginError::ConfigurationAlreadySet);
    }
    Handler::new(100, "heartbeat_register", HandlerOccasion::After, HandlerCondition::MessageType(MessageType::STOC(stoc::MessageType::DuelStart))).register_for_plugin("heartbeat", registry);
    Handler::new(100, "heartbeat", HandlerOccasion::After, HandlerCondition::MessageType(MessageType::CTOS(ctos::MessageType::TimeConfirm))).register_for_plugin("heartbeat", registry);
    Handler::new(100, "heartbeat_diastole", HandlerOccasion::After, HandlerCondition::MessageType(MessageType::STOC(stoc::MessageType::TimeLimit))).register_for_plugin("heartbeat", registry);
    Handler::new(100, "heartbeat_exempt_confirm", HandlerOccasion::Before, HandlerCondition::MessageType(MessageType::GM(gm::MessageType::ConfirmCards))).register_for_plugin("heartbeat", registry);
    Handler::new(100, "heartbeat_exempt_chain", HandlerOccasion::Before, HandlerCondition::MessageType(MessageType::GM(gm::MessageType::ChainSolving))).register_for_plugin("heartbeat", registry);
    Handler::new(101, "heartbeat_exempt_resolved", HandlerOccasion::Before, HandlerCondition::Dynamic).register(registry);
    {
        let mut names: Vec<&str> = Vec::new();
        names.push("heartbeat_exempt_resolved");
        assert(strs(names@) =~= seq!["heartbeat_exempt_resolved"@]);
        Handler::register_handlers("heartbeat", Direction::STOC, names, registry);
    }
    {
        let mut names: Vec<&str> = Vec::new();
        names.push("position_recorder");
        assert(strs(names@) =~= seq!["position_recorder"@]);
        Handler::register_dependencies("heartbeat", names, registry);
    }
    Ok(())
}


/// Beats per minute when none is configured: one every twenty seconds.
pub fn default_beat_per_minute() -> (r: u64)
    ensures
        r == 3,
{
    3
}

/// Seconds to answer a beat when none is configured.
pub fn default_disatole_time() -> (r: u64)
    ensures
        r == 10,
{
    10
}

/// The plugin's configuration.
#[derive(Clone, Debug)]
pub struct Configuration {
    pub beat_per_minute: u64,
    pub diastole_time: u64,
}

impl Default for Configuration {
    fn default() -> (r: Configuration)
        ensures
            r.beat_per_minute == 3,
            r.diastole_time == 10,
    {
        Configuration { beat_per_minute: default_beat_per_minute(), diastole_time: default_disatole_time() }
    }
}

/// Seconds between two beats.
pub fn beat_interval(configuration: &Configuration) -> (r: u64)
    requires
        configuration.beat_per_minute > 0,
    ensures
        r == 60u64 / configuration.beat_per_minute,
{
    60 / configuration.beat_per_minute
}

/// Whether confirming cards exempts the player from the heartbeat: some
/// card is shown from the deck or the extra deck, which takes long.
pub fn exempt_on_confirm(locations: &[Location]) -> (r: bool)
    ensures
        r == exists|i: int| 0 <= i < locations@.len() && (locations@[i] == Location::Deck || locations@[i] == Location::Extra),
{
    let mut i: usize = 0;
    while i < locations.len()
        invariant
            i <= locations@.len(),
            forall|j: int| 0 <= j < i ==> !(locations@[j] == Location::Deck || locations@[j] == Location::Extra),
        decreases locations@.len() - i,
    {
        match locations[i] {
            Location::Deck | Location::Extra => return true,
            _ => {},
        }
        i = i + 1;
    }
    false
}

/// The condition of the handler that ends an exemption: the end of a
/// chain, or a chain negated or disabled.
pub open spec fn spec_chain_resolved(message_type: Option<MessageType>) -> bool {
    message_type == Some(MessageType::GM(gm::MessageType::ChainEnd))
        || message_type == Some(MessageType::GM(gm::MessageType::ChainNegated))
        || message_type == Some(MessageType::GM(gm::MessageType::ChainDisabled))
}

pub fn chain_resolved(message_type: Option<MessageType>) -> (r: bool)
    ensures
        r == spec_chain_resolved(message_type),
{
    match message_type {
        Some(MessageType::GM(gm::MessageType::ChainEnd)) => true,
        Some(MessageType::GM(gm::MessageType::ChainNegated)) => true,
        Some(MessageType::GM(gm::MessageType::ChainDisabled)) => true,
        _ => false,
    }
}

/// Whether a player whose answer did not come in time is expelled: unless
/// exempt.
pub fn expel_on_silence(exempt: Option<bool>) -> (r: bool)
    ensures
        r == (exempt == Some(false)),
{
    match exempt {
        Some(e) => !e,
        None => false,
    }
}

} // verus!
