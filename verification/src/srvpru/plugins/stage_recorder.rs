//! Record the stage that each duel is in.
use vstd::prelude::*;

use crate::srvpru::plugins::PluginError;

use crate::srvpru::processor::{
    fresh_handler, spec_register, spec_register_handlers, strs, Handler, HandlerCondition,
    HandlerOccasion, HandlerView, Registry, RegistryView,
};
use crate::ygopro::message::{gm, stoc, srvpru, Direction, MessageType};


verus! {

/// The registry after the plugin registered its handlers.
pub open spec fn spec_init(r0: RegistryView) -> RegistryView {
    let r1 = spec_register(r0, (HandlerView { name: "stage_recorder_1"@, ..fresh_handler(100, ""@, HandlerOccasion::After, HandlerCondition::MessageType(MessageType::SRVPRU(srvpru::MessageType::RoomCreated))) }));
    let r2 = spec_register(r1, (HandlerView { name: "stage_recorder_2"@, ..fresh_handler(100, ""@, HandlerOccasion::Before, HandlerCondition::MessageType(MessageType::STOC(stoc::MessageType::DuelStart))) }));
    let r3 = spec_register(r2, (HandlerView { name: "stage_recorder_3"@, ..fresh_handler(100, ""@, HandlerOccasion::Before, HandlerCondition::MessageType(MessageType::STOC(stoc::MessageType::SelectHand))) }));
    let r4 = spec_register(r3, (HandlerView { name: "stage_recorder_4"@, ..fresh_handler(100, ""@, HandlerOccasion::Before, HandlerCondition::MessageType(MessageType::STOC(stoc::MessageType::SelectTp))) }));
    let r5 = spec_register(r4, (HandlerView { name: "stage_recorder_5"@, ..fresh_handler(100, ""@, HandlerOccasion::Before, HandlerCondition::MessageType(MessageType::STOC(stoc::MessageType::ChangeSide))) }));
    let r6 = spec_register(r5, (HandlerView { name: "stage_recorder_6"@, ..fresh_handler(100, ""@, HandlerOccasion::Before, HandlerCondition::MessageType(MessageType::GM(gm::MessageType::Start))) }));
    let r7 = spec_register(r6, (HandlerView { name: "stage_recorder_room_attachment_dropper"@, ..fresh_handler(100, ""@, HandlerOccasion::After, HandlerCondition::MessageType(MessageType::SRVPRU(srvpru::MessageType::RoomDestroy))) }));
    let r8 = spec_register_handlers(r7, "stage_recorder"@, Direction::SRVPRU, seq!["stage_recorder_1"@]);
    let r9 = spec_register_handlers(r8, "stage_recorder"@, Direction::STOC, seq!["stage_recorder_2"@, "stage_recorder_3"@, "stage_recorder_4"@, "stage_recorder_5"@, "stage_recorder_6"@]);
    r9
}

/// Register the plugin's handlers with the registry.
pub fn init(registry: &mut Registry) -> (r: Result<(), PluginError>)
    requires
        old(registry).wf(),
    ensures
        final(registry).wf(),
        final(registry)@ == spec_init(old(registry)@),
        r is Ok,
{
    Handler::new(100, "", HandlerOccasion::After, HandlerCondition::MessageType(MessageType::SRVPRU(srvpru::MessageType::RoomCreated))).register_as("stage_recorder_1", registry);
    Handler::new(100, "", HandlerOccasion::Before, HandlerCondition::MessageType(MessageType::STOC(stoc::MessageType::DuelStart))).register_as("stage_recorder_2", registry);
    Handler::new(100, "", HandlerOccasion::Before, HandlerCondition::MessageType(MessageType::STOC(stoc::MessageType::SelectHand))).register_as("stage_recorder_3", registry);
    Handler::new(100, "", HandlerOccasion::Before, HandlerCondition::MessageType(MessageType::STOC(stoc::MessageType::SelectTp))).register_as("stage_recorder_4", registry);
    Handler::new(100, "", HandlerOccasion::Before, HandlerCondition::MessageType(MessageType::STOC(stoc::MessageType::ChangeSide))).register_as("stage_recorder_5", registry);
    Handler::new(100, "", HandlerOccasion::Before, HandlerCondition::MessageType(MessageType::GM(gm::MessageType::Start))).register_as("stage_recorder_6", registry);
    Handler::new(100, "", HandlerOccasion::After, HandlerCondition::MessageType(MessageType::SRVPRU(srvpru::MessageType::RoomDestroy))).register_as("stage_recorder_room_attachment_dropper", registry);
    {
        let mut names: Vec<&str> = Vec::new();
        names.push("stage_recorder_1");
        assert(strs(names@) =~= seq!["stage_recorder_1"@]);
        Handler::register_handlers("stage_recorder", Direction::SRVPRU, names, registry);
    }
    {
        let mut names: Vec<&str> = Vec::new();
        names.push("stage_recorder_2");
        names.push("stage_recorder_3");
        names.push("stage_recorder_4");
        names.push("stage_recorder_5");
        names.push("stage_recorder_6");
        assert(strs(names@) =~= seq!["stage_recorder_2"@, "stage_recorder_3"@, "stage_recorder_4"@, "stage_recorder_5"@, "stage_recorder_6"@]);
        Handler::register_handlers("stage_recorder", Direction::STOC, names, registry);
    }
    Ok(())
}


/// The stage that a duel is in.
#[derive(Copy, Clone, Debug, PartialEq, Eq, Structural, PartialOrd, Ord)]
pub enum DuelStage {
    Void,
    Begin,
    Finger,
    Firstgo,
    Dueling,
    Siding,
    End,
}

impl DuelStage {
    /// Where the stage comes in the course of a duel.
    pub open spec fn spec_rank(self) -> u8 {
        match self {
            DuelStage::Void => 0,
            DuelStage::Begin => 1,
            DuelStage::Finger => 2,
            DuelStage::Firstgo => 3,
            DuelStage::Dueling => 4,
            DuelStage::Siding => 5,
            DuelStage::End => 6,
        }
    }

    pub fn rank(self) -> (r: u8)
        ensures
            r == self.spec_rank(),
    {
        match self {
            DuelStage::Void => 0,
            DuelStage::Begin => 1,
            DuelStage::Finger => 2,
            DuelStage::Firstgo => 3,
            DuelStage::Dueling => 4,
            DuelStage::Siding => 5,
            DuelStage::End => 6,
        }
    }
}

impl Default for DuelStage {
    /// A room starts at the beginning.
    fn default() -> (r: DuelStage)
        ensures
            r == DuelStage::Begin,
    {
        DuelStage::Begin
    }
}

/// The stage after a message of type `t` in stage `s`: rock-paper-scissors
/// starts with the duel and with each hand selection, choosing who goes
/// first with its selection, siding with its change, and the duel proper
/// with the engine's start.
pub open spec fn spec_stage_after(t: MessageType, s: DuelStage) -> DuelStage {
    match t {
        MessageType::STOC(stoc::MessageType::DuelStart) => DuelStage::Finger,
        MessageType::STOC(stoc::MessageType::SelectHand) => DuelStage::Finger,
        MessageType::STOC(stoc::MessageType::SelectTp) => DuelStage::Firstgo,
        MessageType::STOC(stoc::MessageType::ChangeSide) => DuelStage::Siding,
        MessageType::GM(gm::MessageType::Start) => DuelStage::Dueling,
        _ => s,
    }
}

pub fn stage_after(t: MessageType, s: DuelStage) -> (r: DuelStage)
    ensures
        r == spec_stage_after(t, s),
{
    match t {
        MessageType::STOC(stoc::MessageType::DuelStart) => DuelStage::Finger,
        MessageType::STOC(stoc::MessageType::SelectHand) => DuelStage::Finger,
        MessageType::STOC(stoc::MessageType::SelectTp) => DuelStage::Firstgo,
        MessageType::STOC(stoc::MessageType::ChangeSide) => DuelStage::Siding,
        MessageType::GM(gm::MessageType::Start) => DuelStage::Dueling,
        _ => s,
    }
}

/// The stage of a room that records one, else `Void`.
pub fn stage_or_void(recorded: Option<DuelStage>) -> (r: DuelStage)
    ensures
        r == match recorded {
            Some(s) => s,
            None => DuelStage::Void,
        },
{
    match recorded {
        Some(s) => s,
        None => DuelStage::Void,
    }
}

} // verus!
