//! Send tips to rooms now and then.
use vstd::prelude::*;

use crate::srvpru::plugins::PluginError;

use crate::srvpru::processor::{
    fresh_handler, spec_register_dependencies, spec_register_for_plugin, strs, Handler,
    HandlerCondition, HandlerOccasion, Registry, RegistryView,
};
use crate::ygopro::message::{stoc, srvpru, MessageType};
use crate::srvpru::plugins::choose_one;

verus! {

/// The registry after the plugin loaded its configuration and registered
/// its handlers and dependencies; unchanged where its configuration was already
/// loaded, as a plugin starts once.
pub open spec fn spec_init(r: RegistryView) -> RegistryView {
    if r.configured.contains("tip"@) {
        r
    } else {
        let r0 = RegistryView { configured: r.configured.insert("tip"@), ..r };
        let r1 = spec_register_for_plugin(r0, fresh_handler(100, "chat_command_tip"@, HandlerOccasion::Before, HandlerCondition::MessageType(MessageType::SRVPRU(srvpru::MessageType::ServerStart))), "tip"@);
        let r2 = spec_register_for_plugin(r1, fresh_handler(100, "tip_interval_runner_1"@, HandlerOccasion::After, HandlerCondition::MessageType(MessageType::SRVPRU(srvpru::MessageType::RoomCreated))), "tip"@);
        let r3 = spec_register_for_plugin(r2, fresh_handler(100, "tip_interval_runner_2"@, HandlerOccasion::After, HandlerCondition::MessageType(MessageType::STOC(stoc::MessageType::DuelStart))), "tip"@);
        let r4 = spec_register_for_plugin(r3, fresh_handler(100, "tip_dropper"@, HandlerOccasion::Before, HandlerCondition::MessageType(MessageType::SRVPRU(srvpru::MessageType::RoomDestroy))), "tip"@);
        let r5 = spec_register_dependencies(r4, "tip"@, seq!["chat_command"@]);
        r5
    }
}

/// Register the plugin's handlers with the registry.
pub fn init(registry: &mut Registry) -> (r: Result<(), PluginError>)
    requires
        old(registry).wf(),
    ensures
        final(registry).wf(),
        final(registry)@ == spec_init(old(registry)@),
        r == (if old(registry)@.configured.contains("tip"@) { Err(PluginError::ConfigurationAlreadySet) } else { Ok(()) }),
{
    if !registry.configure("tip") {
        return Err(PluginError::ConfigurationAlreadySet);
    }
    Handler::new(100, "chat_command_tip", HandlerOccasion::Before, HandlerCondition::MessageType(MessageType::SRVPRU(srvpru::MessageType::ServerStart))).register_for_plugin("tip", registry);
    Handler::new(100, "tip_interval_runner_1", HandlerOccasion::After, HandlerCondition::MessageType(MessageType::SRVPRU(srvpru::MessageType::RoomCreated))).register_for_plugin("tip", registry);
    Handler::new(100, "tip_interval_runner_2", HandlerOccasion::After, HandlerCondition::MessageType(MessageType::STOC(stoc::MessageType::DuelStart))).register_for_plugin("tip", registry);
    Handler::new(100, "tip_dropper", HandlerOccasion::Before, HandlerCondition::MessageType(MessageType::SRVPRU(srvpru::MessageType::RoomDestroy))).register_for_plugin("tip", registry);
    {
        let mut names: Vec<&str> = Vec::new();
        names.push("chat_command");
        assert(strs(names@) =~= seq!["chat_command"@]);
        Handler::register_dependencies("tip", names, registry);
    }
    Ok(())
}


pub fn default_interval_when_prepare() -> (r: u64)
    ensures
        r == 100000,
{
    100000
}

pub fn default_interval_when_in_game() -> (r: u64)
    ensures
        r == 200000,
{
    200000
}

/// The plugin's configuration; intervals in milliseconds.
#[derive(Clone, Debug)]
pub struct Configuration {
    pub tips: Vec<String>,
    pub interval_when_prepare: u64,
    pub interval_when_in_game: u64,
}

impl Default for Configuration {
    fn default() -> (r: Configuration)
        ensures
            r.tips@.len() == 0,
            r.interval_when_prepare == 100000,
            r.interval_when_in_game == 200000,
    {
        Configuration {
            tips: Vec::new(),
            interval_when_prepare: default_interval_when_prepare(),
            interval_when_in_game: default_interval_when_in_game(),
        }
    }
}

/// A tip chosen at random, or `N/A` where there are none.
pub fn select_a_tip(configuration: &Configuration) -> (r: String)
    ensures
        configuration.tips@.len() == 0 ==> r@ == "N/A"@,
        configuration.tips@.len() > 0 ==> exists|i: int| 0 <= i < configuration.tips@.len() && r@ == configuration.tips@[i]@,
{
    match choose_one(configuration.tips.as_slice()) {
        Some(t) => {
            let ghost i = choose|i: int| 0 <= i < configuration.tips@.len() && configuration.tips@[i] == *t;
            let r = t.clone();
            assert(r@ == configuration.tips@[i]@);
            r
        },
        None => "N/A".to_owned(),
    }
}

} // verus!
