//! A hidden observer in every duel, whose view others can watch.
use vstd::prelude::*;

use crate::srvpru::plugins::PluginError;

use crate::srvpru::processor::{
    fresh_handler, spec_register, spec_register_dependencies, spec_register_handlers, strs,
    Handler, HandlerCondition, HandlerOccasion, HandlerView, Registry, RegistryView,
};
use crate::ygopro::message::{ctos, stoc, srvpru, Direction, MessageType};
use crate::srvpru::plugins::stage_recorder::DuelStage;
use crate::text::{chars_of, eq_str};
use crate::ygopro::message::sequence::{frames, StructSequence};
use crate::ygopro::message::string::{cast_to_fix_length_array, lemma_bmp_utf16_len, utf16_of};
use crate::ygopro::message::utils::Message;
use crate::ygopro::message::MessageSequence;

verus! {

/// The registry after the plugin registered its handlers and dependencies.
pub open spec fn spec_init(r0: RegistryView) -> RegistryView {
    let r1 = spec_register(r0, (HandlerView { name: "telescreen_injector"@, ..fresh_handler(100, ""@, HandlerOccasion::After, HandlerCondition::MessageType(MessageType::SRVPRU(srvpru::MessageType::RoomCreated))) }));
    let r2 = spec_register(r1, fresh_handler(9, "telescreen_blocker"@, HandlerOccasion::Before, HandlerCondition::MessageType(MessageType::CTOS(ctos::MessageType::PlayerInfo))));
    let r3 = spec_register(r2, fresh_handler(8, "telescreen_watcher"@, HandlerOccasion::Before, HandlerCondition::MessageType(MessageType::CTOS(ctos::MessageType::JoinGame))));
    let r4 = spec_register(r3, fresh_handler(1, "telescreen_hider"@, HandlerOccasion::Before, HandlerCondition::MessageType(MessageType::STOC(stoc::MessageType::HsPlayerEnter))));
    let r5 = spec_register(r4, fresh_handler(1, "telescreen_hider2"@, HandlerOccasion::Before, HandlerCondition::MessageType(MessageType::STOC(stoc::MessageType::HsPlayerChange))));
    let r6 = spec_register(r5, fresh_handler(1, "telescreen_hider3"@, HandlerOccasion::Before, HandlerCondition::MessageType(MessageType::STOC(stoc::MessageType::HsWatchChange))));
    let r7 = spec_register(r6, fresh_handler(1, "telescreen_message_interceptor"@, HandlerOccasion::Before, HandlerCondition::Dynamic));
    let r8 = spec_register(r7, fresh_handler(255, "telescreen_loudspeaker"@, HandlerOccasion::Before, HandlerCondition::MessageType(MessageType::CTOS(ctos::MessageType::Chat))));
    let r9 = spec_register(r8, (HandlerView { name: "telescreen_room_attachment_dropper"@, ..fresh_handler(100, ""@, HandlerOccasion::After, HandlerCondition::MessageType(MessageType::SRVPRU(srvpru::MessageType::RoomDestroy))) }));
    let r10 = spec_register_handlers(r9, "telescreen"@, Direction::CTOS, seq!["telescreen_watcher"@, "telescreen_blocker"@, "telescreen_message_interceptor"@, "telescreen_loudspeaker"@]);
    let r11 = spec_register_handlers(r10, "telescreen"@, Direction::STOC, seq!["telescreen_hider"@, "telescreen_hider2"@, "telescreen_hider3"@]);
    let r12 = spec_register_handlers(r11, "telescreen"@, Direction::SRVPRU, seq!["telescreen_injector"@, "telescreen_room_attachment_dropper"@]);
    let r13 = spec_register_dependencies(r12, "telescreen"@, seq!["version_checker"@, "stage_recorder"@]);
    r13
}

/// Register the plugin's handlers with the registry.
pub fn init(registry: &mut Registry) -> (r: Result<(), PluginError>)
    requires
        old(registry).wf(),
    ensures
        final(registry).wf(),
        final(registry)@ == spec_init(old(registry)@),
        r is Ok,
{
    Handler::new(100, "", HandlerOccasion::After, HandlerCondition::MessageType(MessageType::SRVPRU(srvpru::MessageType::RoomCreated))).register_as("telescreen_injector", registry);
    Handler::new(9, "telescreen_blocker", HandlerOccasion::Before, HandlerCondition::MessageType(MessageType::CTOS(ctos::MessageType::PlayerInfo))).register(registry);
    Handler::new(8, "telescreen_watcher", HandlerOccasion::Before, HandlerCondition::MessageType(MessageType::CTOS(ctos::MessageType::JoinGame))).register(registry);
    Handler::new(1, "telescreen_hider", HandlerOccasion::Before, HandlerCondition::MessageType(MessageType::STOC(stoc::MessageType::HsPlayerEnter))).register(registry);
    Handler::new(1, "telescreen_hider2", HandlerOccasion::Before, HandlerCondition::MessageType(MessageType::STOC(stoc::MessageType::HsPlayerChange))).register(registry);
    Handler::new(1, "telescreen_hider3", HandlerOccasion::Before, HandlerCondition::MessageType(MessageType::STOC(stoc::MessageType::HsWatchChange))).register(registry);
    Handler::new(1, "telescreen_message_interceptor", HandlerOccasion::Before, HandlerCondition::Dynamic).register(registry);
    Handler::new(255, "telescreen_loudspeaker", HandlerOccasion::Before, HandlerCondition::MessageType(MessageType::CTOS(ctos::MessageType::Chat))).register(registry);
    Handler::new(100, "", HandlerOccasion::After, HandlerCondition::MessageType(MessageType::SRVPRU(srvpru::MessageType::RoomDestroy))).register_as("telescreen_room_attachment_dropper", registry);
    {
        let mut names: Vec<&str> = Vec::new();
        names.push("telescreen_watcher");
        names.push("telescreen_blocker");
        names.push("telescreen_message_interceptor");
        names.push("telescreen_loudspeaker");
        assert(strs(names@) =~= seq!["telescreen_watcher"@, "telescreen_blocker"@, "telescreen_message_interceptor"@, "telescreen_loudspeaker"@]);
        Handler::register_handlers("telescreen", Direction::CTOS, names, registry);
    }
    {
        let mut names: Vec<&str> = Vec::new();
        names.push("telescreen_hider");
        names.push("telescreen_hider2");
        names.push("telescreen_hider3");
        assert(strs(names@) =~= seq!["telescreen_hider"@, "telescreen_hider2"@, "telescreen_hider3"@]);
        Handler::register_handlers("telescreen", Direction::STOC, names, registry);
    }
    {
        let mut names: Vec<&str> = Vec::new();
        names.push("telescreen_injector");
        names.push("telescreen_room_attachment_dropper");
        assert(strs(names@) =~= seq!["telescreen_injector"@, "telescreen_room_attachment_dropper"@]);
        Handler::register_handlers("telescreen", Direction::SRVPRU, names, registry);
    }
    {
        let mut names: Vec<&str> = Vec::new();
        names.push("version_checker");
        names.push("stage_recorder");
        assert(strs(names@) =~= seq!["version_checker"@, "stage_recorder"@]);
        Handler::register_dependencies("telescreen", names, registry);
    }
    Ok(())
}


/// The name that the telescreen joins a room with.
pub fn telescreen_name() -> (r: &'static str)
    ensures
        r@ == "The telescreen"@,
{
    "The telescreen"
}

/// Whether a player's name is the telescreen's, which no player may take.
pub fn is_telescreen(name: &str) -> (r: bool)
    ensures
        r == (name@ == "The telescreen"@),
{
    let cs = chars_of(name);
    eq_str(cs.as_slice(), "The telescreen")
}

/// Whether a change of seat is the telescreen's own and is hidden.
pub fn hides_player_change(status: u8) -> (r: bool)
    ensures
        r == (status == 24),
{
    status == 24
}

/// The count of watchers that players are shown, which leaves out the
/// telescreen; `None` where the telescreen is the only watcher and the
/// message is hidden.
pub fn watch_change(match_count: u16) -> (r: Option<u16>)
    requires
        match_count >= 1,
    ensures
        match_count == 1 ==> r is None,
        match_count > 1 ==> r == Some((match_count - 1) as u16),
{
    let count = match_count - 1;
    if count == 0 { None } else { Some(count) }
}

/// The condition of the handler that keeps watchers to chat: every message
/// but a chat line.
pub fn intercepts_message(message_type: Option<MessageType>) -> (r: bool)
    ensures
        r == (message_type != Some(MessageType::CTOS(ctos::MessageType::Chat))),
{
    match message_type {
        Some(MessageType::CTOS(ctos::MessageType::Chat)) => false,
        _ => true,
    }
}

/// Whether a player who joins watches through the telescreen: once the
/// duel has begun.
pub fn watches(stage: DuelStage) -> (r: bool)
    ensures
        r == (stage.spec_rank() > DuelStage::Begin.spec_rank()),
{
    stage.rank() > DuelStage::Begin.rank()
}

/// The name of the telescreen as a name field.
pub open spec fn telescreen_units() -> Seq<u16> {
    utf16_of("The telescreen"@) + Seq::new((20 - utf16_of("The telescreen"@).len()) as nat, |i: int| 0u16)
}

/// What the telescreen sends to join a room as an observer: its name, a
/// request to join with the server's version and its name as password, and
/// a move to the observers.
pub fn join_sequence(version: u16) -> (r: MessageSequence)
    ensures
        r.messages@.len() == 3,
        r.messages@[0] matches Message::CtosPlayerInfo(m) && m.name@ == telescreen_units(),
        r.messages@[1] matches Message::CtosJoinGame(m) && m.version == version && m.align == 0 && m.gameid == 0
            && m.pass@ == telescreen_units(),
        r.messages@[2] matches Message::CtosHsToOBServer(_),
{
    proof {
        reveal_strlit("The telescreen");
        lemma_bmp_utf16_len("The telescreen"@);
    }
    let mut messages: Vec<Message> = Vec::new();
    messages.push(Message::CtosPlayerInfo(ctos::PlayerInfo { name: cast_to_fix_length_array::<20>("The telescreen") }));
    messages.push(Message::CtosJoinGame(ctos::JoinGame {
        version,
        align: 0,
        gameid: 0,
        pass: cast_to_fix_length_array::<20>("The telescreen"),
    }));
    messages.push(Message::CtosHsToOBServer(ctos::HsToOBServer));
    MessageSequence { messages }
}

/// The bytes that the telescreen sends to join a room.
pub fn join_bytes(version: u16) -> (r: Vec<u8>)
    ensures
        exists|s: Seq<Message>| s.len() == 3 && r@ == frames(s)
            && (s[0] matches Message::CtosPlayerInfo(m) && m.name@ == telescreen_units())
            && (s[1] matches Message::CtosJoinGame(m) && m.version == version && m.align == 0 && m.gameid == 0
                && m.pass@ == telescreen_units())
            && (s[2] matches Message::CtosHsToOBServer(_)),
{
    let seq = join_sequence(version);
    let r = seq.serialize();
    assert(r@ == frames(seq.messages@));
    r
}

} // verus!
