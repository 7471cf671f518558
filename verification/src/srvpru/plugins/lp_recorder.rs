//! Record each player's life points.
use vstd::prelude::*;

use crate::srvpru::plugins::PluginError;

use crate::srvpru::processor::{
    fresh_handler, spec_register, spec_register_handlers, strs, Handler, HandlerCondition,
    HandlerOccasion, HandlerView, Registry, RegistryView,
};
use crate::ygopro::message::{gm, stoc, srvpru, Direction, MessageType};
use crate::ygopro::constants::Netplayer;

verus! {

/// The registry after the plugin registered its handlers.
pub open spec fn spec_init(r0: RegistryView) -> RegistryView {
    let r1 = spec_register(r0, fresh_handler(100, "lp_recorder_start"@, HandlerOccasion::After, HandlerCondition::MessageType(MessageType::STOC(stoc::MessageType::DuelStart))));
    let r2 = spec_register(r1, fresh_handler(100, "lp_recorder_damage"@, HandlerOccasion::Before, HandlerCondition::MessageType(MessageType::GM(gm::MessageType::Damage))));
    let r3 = spec_register(r2, fresh_handler(100, "lp_recorder_recover"@, HandlerOccasion::Before, HandlerCondition::MessageType(MessageType::GM(gm::MessageType::Recover))));
    let r4 = spec_register(r3, fresh_handler(100, "lp_recorder_lpupdate"@, HandlerOccasion::Before, HandlerCondition::MessageType(MessageType::GM(gm::MessageType::Lpupdate))));
    let r5 = spec_register(r4, fresh_handler(100, "lp_recorder_paylp"@, HandlerOccasion::Before, HandlerCondition::MessageType(MessageType::GM(gm::MessageType::PayLpcost))));
    let r6 = spec_register(r5, (HandlerView { name: "lp_recorder_player_attachment_dropper"@, ..fresh_handler(100, ""@, HandlerOccasion::After, HandlerCondition::MessageType(MessageType::SRVPRU(srvpru::MessageType::PlayerDestroy))) }));
    let r7 = spec_register_handlers(r6, "lp_recorder"@, Direction::SRVPRU, seq!["lp_recorder_player_attachment_dropper"@]);
    let r8 = spec_register(r7, (HandlerView { name: "lp_recorder_player_attachment_mover"@, ..fresh_handler(100, ""@, HandlerOccasion::After, HandlerCondition::MessageType(MessageType::SRVPRU(srvpru::MessageType::PlayerMove))) }));
    let r9 = spec_register_handlers(r8, "lp_recorder"@, Direction::SRVPRU, seq!["lp_recorder_player_attachment_mover"@]);
    let r10 = spec_register_handlers(r9, "lp_recorder"@, Direction::STOC, seq!["lp_recorder_damage"@, "lp_recorder_recover"@, "lp_recorder_lpupdate"@, "lp_recorder_paylp"@, "lp_recorder_start"@]);
    r10
}

/// Register the plugin's handlers with the registry.
pub fn init(registry: &mut Registry) -> (r: Result<(), PluginError>)
    requires
        old(registry).wf(),
    ensures
        final(registry).wf(),
        final(registry)@ == spec_init(old(registry)@),
        r is Ok,
{
    Handler::new(100, "lp_recorder_start", HandlerOccasion::After, HandlerCondition::MessageType(MessageType::STOC(stoc::MessageType::DuelStart))).register(registry);
    Handler::new(100, "lp_recorder_damage", HandlerOccasion::Before, HandlerCondition::MessageType(MessageType::GM(gm::MessageType::Damage))).register(registry);
    Handler::new(100, "lp_recorder_recover", HandlerOccasion::Before, HandlerCondition::MessageType(MessageType::GM(gm::MessageType::Recover))).register(registry);
    Handler::new(100, "lp_recorder_lpupdate", HandlerOccasion::Before, HandlerCondition::MessageType(MessageType::GM(gm::MessageType::Lpupdate))).register(registry);
    Handler::new(100, "lp_recorder_paylp", HandlerOccasion::Before, HandlerCondition::MessageType(MessageType::GM(gm::MessageType::PayLpcost))).register(registry);
    Handler::new(100, "", HandlerOccasion::After, HandlerCondition::MessageType(MessageType::SRVPRU(srvpru::MessageType::PlayerDestroy))).register_as("lp_recorder_player_attachment_dropper", registry);
    {
        let mut names: Vec<&str> = Vec::new();
        names.push("lp_recorder_player_attachment_dropper");
        assert(strs(names@) =~= seq!["lp_recorder_player_attachment_dropper"@]);
        Handler::register_handlers("lp_recorder", Direction::SRVPRU, names, registry);
    }
    Handler::new(100, "", HandlerOccasion::After, HandlerCondition::MessageType(MessageType::SRVPRU(srvpru::MessageType::PlayerMove))).register_as("lp_recorder_player_attachment_mover", registry);
    {
        let mut names: Vec<&str> = Vec::new();
        names.push("lp_recorder_player_attachment_mover");
        assert(strs(names@) =~= seq!["lp_recorder_player_attachment_mover"@]);
        Handler::register_handlers("lp_recorder", Direction::SRVPRU, names, registry);
    }
    {
        let mut names: Vec<&str> = Vec::new();
        names.push("lp_recorder_damage");
        names.push("lp_recorder_recover");
        names.push("lp_recorder_lpupdate");
        names.push("lp_recorder_paylp");
        names.push("lp_recorder_start");
        assert(strs(names@) =~= seq!["lp_recorder_damage"@, "lp_recorder_recover"@, "lp_recorder_lpupdate"@, "lp_recorder_paylp"@, "lp_recorder_start"@]);
        Handler::register_handlers("lp_recorder", Direction::STOC, names, registry);
    }
    Ok(())
}


/// A change of life points that a game message announces.
#[derive(Copy, Clone, Debug, PartialEq, Eq, Structural)]
pub enum LpEvent {
    Damage(i32),
    Recover(i32),
    Update(i32),
    PayCost(i32),
}

pub open spec fn spec_lp_after(lp: i32, event: LpEvent) -> int {
    match event {
        LpEvent::Damage(v) => lp - v,
        LpEvent::Recover(v) => lp + v,
        LpEvent::Update(v) => v as int,
        LpEvent::PayCost(v) => lp - v,
    }
}

/// Damage and recovery of the same amount undo each other, paying a cost is
/// damage, and an update sets the life points whatever they were.
pub proof fn law_lp_changes(lp: i32, v: i32, w: i32)
    ensures
        spec_lp_after(lp, LpEvent::Damage(v)) == lp - v,
        spec_lp_after(lp, LpEvent::Recover(v)) == lp + v,
        spec_lp_after(lp, LpEvent::PayCost(v)) == spec_lp_after(lp, LpEvent::Damage(v)),
        spec_lp_after(lp, LpEvent::Update(w)) == w,
        i32::MIN <= lp - v <= i32::MAX ==> spec_lp_after((lp - v) as i32, LpEvent::Recover(v)) == lp,
{
}

/// A player's life points after a change that names `target`: a change of
/// another player's life points leaves them alone.
pub fn lp_after(position: Netplayer, lp: i32, target: Netplayer, event: LpEvent) -> (r: Option<i32>)
    requires
        i32::MIN <= spec_lp_after(lp, event) <= i32::MAX,
    ensures
        position != target ==> r is None,
        position == target ==> r == Some(spec_lp_after(lp, event) as i32),
{
    if position != target {
        return None;
    }
    let v = match event {
        LpEvent::Damage(v) => lp - v,
        LpEvent::Recover(v) => lp + v,
        LpEvent::Update(v) => v,
        LpEvent::PayCost(v) => lp - v,
    };
    Some(v)
}

/// The life points at the start of a duel.
pub fn lp_at_start(start_lp: u32) -> (r: i32)
    ensures
        r == start_lp as i32,
{
    start_lp as i32
}

/// The life points of a player that recorded some, else 8000.
pub fn lp_or_default(recorded: Option<i32>) -> (r: i32)
    ensures
        r == match recorded {
            Some(v) => v,
            None => 8000i32,
        },
{
    match recorded {
        Some(v) => v,
        None => 8000,
    }
}

} // verus!
