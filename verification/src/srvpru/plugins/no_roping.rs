//! Limit how long a player may take for an action.
use vstd::prelude::*;

use crate::srvpru::plugins::PluginError;

use crate::srvpru::processor::{
    fresh_handler, spec_register, spec_register_handlers, strs, Handler, HandlerCondition,
    HandlerOccasion, HandlerView, Registry, RegistryView,
};
use crate::ygopro::message::{srvpru, Direction, MessageType};
use crate::text::{push_signed_decimal, push_str, string_of, signed_decimal};
use crate::ygopro::constants::Netplayer;

verus! {

/// The registry after the plugin loaded its configuration and registered
/// its handlers; unchanged where its configuration was already
/// loaded, as a plugin starts once.
pub open spec fn spec_init(r: RegistryView) -> RegistryView {
    if r.configured.contains("no_roping"@) {
        r
    } else {
        let r0 = RegistryView { configured: r.configured.insert("no_roping"@), ..r };
        let r1 = spec_register(r0, fresh_handler(100, "roping_recorder"@, HandlerOccasion::After, HandlerCondition::Always));
        let r2 = spec_register(r1, (HandlerView { name: "no_roping_player_attachment_dropper"@, ..fresh_handler(100, ""@, HandlerOccasion::After, HandlerCondition::MessageType(MessageType::SRVPRU(srvpru::MessageType::PlayerDestroy))) }));
        let r3 = spec_register_handlers(r2, "no_roping"@, Direction::SRVPRU, seq!["no_roping_player_attachment_dropper"@]);
        let r4 = spec_register(r3, (HandlerView { name: "no_roping_player_attachment_mover"@, ..fresh_handler(100, ""@, HandlerOccasion::After, HandlerCondition::MessageType(MessageType::SRVPRU(srvpru::MessageType::PlayerMove))) }));
        let r5 = spec_register_handlers(r4, "no_roping"@, Direction::SRVPRU, seq!["no_roping_player_attachment_mover"@]);
        let r6 = spec_register_handlers(r5, "no_roping"@, Direction::CTOS, seq!["roping_recorder"@]);
        r6
    }
}

/// Register the plugin's handlers with the registry.
pub fn init(registry: &mut Registry) -> (r: Result<(), PluginError>)
    requires
        old(registry).wf(),
    ensures
        final(registry).wf(),
        final(registry)@ == spec_init(old(registry)@),
        r == (if old(registry)@.configured.contains("no_roping"@) { Err(PluginError::ConfigurationAlreadySet) } else { Ok(()) }),
{
    if !registry.configure("no_roping") {
        return Err(PluginError::ConfigurationAlreadySet);
    }
    Handler::new(100, "roping_recorder", HandlerOccasion::After, HandlerCondition::Always).register(registry);
    Handler::new(100, "", HandlerOccasion::After, HandlerCondition::MessageType(MessageType::SRVPRU(srvpru::MessageType::PlayerDestroy))).register_as("no_roping_player_attachment_dropper", registry);
    {
        let mut names: Vec<&str> = Vec::new();
        names.push("no_roping_player_attachment_dropper");
        assert(strs(names@) =~= seq!["no_roping_player_attachment_dropper"@]);
        Handler::register_handlers("no_roping", Direction::SRVPRU, names, registry);
    }
    Handler::new(100, "", HandlerOccasion::After, HandlerCondition::MessageType(MessageType::SRVPRU(srvpru::MessageType::PlayerMove))).register_as("no_roping_player_attachment_mover", registry);
    {
        let mut names: Vec<&str> = Vec::new();
        names.push("no_roping_player_attachment_mover");
        assert(strs(names@) =~= seq!["no_roping_player_attachment_mover"@]);
        Handler::register_handlers("no_roping", Direction::SRVPRU, names, registry);
    }
    {
        let mut names: Vec<&str> = Vec::new();
        names.push("roping_recorder");
        assert(strs(names@) =~= seq!["roping_recorder"@]);
        Handler::register_handlers("no_roping", Direction::CTOS, names, registry);
    }
    Ok(())
}


pub fn default_max_roping_time() -> (r: i64)
    ensures
        r == 90000,
{
    90000
}

pub fn default_roping_warn_time() -> (r: i64)
    ensures
        r == 70000,
{
    70000
}

pub fn default_scan_interval() -> (r: u64)
    ensures
        r == 4000,
{
    4000
}

/// The plugin's configuration, in milliseconds.
#[derive(Clone, Debug)]
pub struct Configuration {
    pub max_roping_time: i64,
    pub roping_warn_time: i64,
    pub scan_interval: u64,
}

impl Default for Configuration {
    fn default() -> (r: Configuration)
        ensures
            r.max_roping_time == 90000,
            r.roping_warn_time == 70000,
            r.scan_interval == 4000,
    {
        Configuration {
            max_roping_time: default_max_roping_time(),
            roping_warn_time: default_roping_warn_time(),
            scan_interval: default_scan_interval(),
        }
    }
}

/// What a scan does with a player.
#[derive(Copy, Clone, Debug, PartialEq, Eq, Structural)]
pub enum RopingAction {
    Nothing,
    /// Warn the player: this many seconds are left.
    Warn(i64),
    Expel,
}

/// What a scan at `now` does with a duelist whose last action was at
/// `last_action_time`: expel after the longest time; warn once, in the scan
/// that first passes the warning time; observers and exempt players are
/// left alone.
pub open spec fn spec_roping_action(c: Configuration, now: int, last_action_time: int, position: Netplayer, timeout_exempt: bool) -> RopingAction {
    let spare = now - last_action_time;
    if position == Netplayer::Observer || timeout_exempt {
        RopingAction::Nothing
    } else if spare > c.max_roping_time {
        RopingAction::Expel
    } else if spare > c.roping_warn_time && spare <= c.roping_warn_time + (c.scan_interval as i64) {
        RopingAction::Warn(((c.max_roping_time - spare) / 1000) as i64)
    } else {
        RopingAction::Nothing
    }
}

pub fn roping_action(configuration: &Configuration, now: i64, last_action_time: i64, position: Netplayer, timeout_exempt: bool) -> (r: RopingAction)
    requires
        i64::MIN <= now - last_action_time <= i64::MAX,
        i64::MIN <= configuration.roping_warn_time + (configuration.scan_interval as i64) <= i64::MAX,
        i64::MIN <= configuration.max_roping_time - configuration.roping_warn_time <= i64::MAX,
    ensures
        r == spec_roping_action(*configuration, now as int, last_action_time as int, position, timeout_exempt),
{
    if position == Netplayer::Observer || timeout_exempt {
        return RopingAction::Nothing;
    }
    let spare = now - last_action_time;
    if spare > configuration.max_roping_time {
        RopingAction::Expel
    } else if spare > configuration.roping_warn_time && spare <= configuration.roping_warn_time + configuration.scan_interval as i64 {
        let rest = configuration.max_roping_time - spare;
        RopingAction::Warn(rest / 1000)
    } else {
        RopingAction::Nothing
    }
}

/// The warning to a player: the name, the first part, the seconds left and
/// the second part.
pub fn warn_text(name: &str, rest_time: i64) -> (r: String)
    ensures
        r@ == name@ + "{afk_warn_part1}"@ + signed_decimal(rest_time as int) + "{afk_warn_part2}"@,
{
    let mut out: Vec<char> = Vec::new();
    push_str(&mut out, name);
    push_str(&mut out, "{afk_warn_part1}");
    push_signed_decimal(&mut out, rest_time);
    push_str(&mut out, "{afk_warn_part2}");
    string_of(out.as_slice())
}

} // verus!
