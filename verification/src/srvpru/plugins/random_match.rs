//! An empty password, `S`, `M` or `T` joins a random match.
use vstd::prelude::*;

use crate::srvpru::plugins::PluginError;

use crate::srvpru::processor::{
    fresh_handler, spec_register, spec_register_handlers, strs, Handler, HandlerCondition,
    HandlerOccasion, Registry, RegistryView,
};
use crate::ygopro::message::{ctos, stoc, srvpru, Direction, MessageType};
use crate::text::{chars_of, push_signed_decimal, push_str, signed_decimal, string_of};
use crate::ygopro::constants::Mode;

verus! {

/// The registry after the plugin registered its handlers.
pub open spec fn spec_init(r0: RegistryView) -> RegistryView {
    let r1 = spec_register(r0, fresh_handler(9, "random_matcher_join_game"@, HandlerOccasion::After, HandlerCondition::MessageType(MessageType::CTOS(ctos::MessageType::JoinGame))));
    let r2 = spec_register(r1, fresh_handler(9, "random_matcher_dropper_on_duel_start"@, HandlerOccasion::After, HandlerCondition::MessageType(MessageType::STOC(stoc::MessageType::DuelStart))));
    let r3 = spec_register(r2, fresh_handler(9, "random_matcher_dropper_on_room_termination"@, HandlerOccasion::After, HandlerCondition::MessageType(MessageType::SRVPRU(srvpru::MessageType::RoomDestroy))));
    let r4 = spec_register_handlers(r3, "random_match"@, Direction::CTOS, seq!["random_matcher_join_game"@, "random_matcher_dropper_on_duel_start"@]);
    let r5 = spec_register_handlers(r4, "random_match"@, Direction::SRVPRU, seq!["random_matcher_dropper_on_room_termination"@]);
    r5
}

/// Register the plugin's handlers with the registry.
pub fn init(registry: &mut Registry) -> (r: Result<(), PluginError>)
    requires
        old(registry).wf(),
    ensures
        final(registry).wf(),
        final(registry)@ == spec_init(old(registry)@),
        r is Ok,
{
    Handler::new(9, "random_matcher_join_game", HandlerOccasion::After, HandlerCondition::MessageType(MessageType::CTOS(ctos::MessageType::JoinGame))).register(registry);
    Handler::new(9, "random_matcher_dropper_on_duel_start", HandlerOccasion::After, HandlerCondition::MessageType(MessageType::STOC(stoc::MessageType::DuelStart))).register(registry);
    Handler::new(9, "random_matcher_dropper_on_room_termination", HandlerOccasion::After, HandlerCondition::MessageType(MessageType::SRVPRU(srvpru::MessageType::RoomDestroy))).register(registry);
    {
        let mut names: Vec<&str> = Vec::new();
        names.push("random_matcher_join_game");
        names.push("random_matcher_dropper_on_duel_start");
        assert(strs(names@) =~= seq!["random_matcher_join_game"@, "random_matcher_dropper_on_duel_start"@]);
        Handler::register_handlers("random_match", Direction::CTOS, names, registry);
    }
    {
        let mut names: Vec<&str> = Vec::new();
        names.push("random_matcher_dropper_on_room_termination");
        assert(strs(names@) =~= seq!["random_matcher_dropper_on_room_termination"@]);
        Handler::register_handlers("random_match", Direction::SRVPRU, names, registry);
    }
    Ok(())
}


/// The password that a random match is looked up by: an empty one is `M`.
pub open spec fn spec_match_password(password: Seq<char>) -> Seq<char> {
    if password.len() == 0 { "M"@ } else { password }
}

/// The mode of a random match that a password asks for, if it asks for
/// one: `S`, `M` or `T`.
pub open spec fn spec_mode_of_password(password: Seq<char>) -> Option<Mode> {
    let p = spec_match_password(password);
    if p == "S"@ {
        Some(Mode::Single)
    } else if p == "M"@ {
        Some(Mode::Match)
    } else if p == "T"@ {
        Some(Mode::Tag)
    } else {
        None
    }
}

pub fn mode_of_password(password: &str) -> (r: Option<Mode>)
    ensures
        r == spec_mode_of_password(password@),
{
    let cs = chars_of(password);
    if cs.len() == 0 {
        proof {
            reveal_strlit("M");
            reveal_strlit("S");
            assert("M"@[0] != "S"@[0]);
        }
        return Some(Mode::Match);
    }
    if crate::text::eq_str(cs.as_slice(), "S") {
        Some(Mode::Single)
    } else if crate::text::eq_str(cs.as_slice(), "M") {
        Some(Mode::Match)
    } else if crate::text::eq_str(cs.as_slice(), "T") {
        Some(Mode::Tag)
    } else {
        None
    }
}

/// How many players a room of a mode holds.
pub open spec fn spec_player_count(mode: Mode) -> nat {
    match mode {
        Mode::Single => 2,
        Mode::Match => 2,
        Mode::Tag => 4,
    }
}

pub fn player_count(mode: Mode) -> (r: usize)
    ensures
        r == spec_player_count(mode),
{
    match mode {
        Mode::Single => 2,
        Mode::Match => 2,
        Mode::Tag => 4,
    }
}

/// Whether a room of `mode` with `current_count` players has a free seat.
pub fn can_join_room(current_count: usize, mode: Mode) -> (r: bool)
    ensures
        r == (current_count < spec_player_count(mode)),
{
    current_count < player_count(mode)
}

/// The greeting of a player who entered a random room.
pub fn enter_message(mode: Mode) -> (r: &'static str)
    ensures
        r@ == match mode {
            Mode::Single => "{random_duel_enter_room_single}"@,
            Mode::Match => "{random_duel_enter_room_match}"@,
            Mode::Tag => "{random_duel_enter_room_tag}"@,
        },
{
    match mode {
        Mode::Single => "{random_duel_enter_room_single}",
        Mode::Match => "{random_duel_enter_room_match}",
        Mode::Tag => "{random_duel_enter_room_tag}",
    }
}

/// The name of a new random room: the password, then `#random_match_` and
/// the time in milliseconds.
pub fn random_room_name(password: &str, millis: i64) -> (r: String)
    ensures
        r@ == spec_match_password(password@) + "#random_match_"@ + signed_decimal(millis as int),
{
    let mut out: Vec<char> = Vec::new();
    let cs = chars_of(password);
    if cs.len() == 0 {
        push_str(&mut out, "M");
    } else {
        push_str(&mut out, password);
    }
    push_str(&mut out, "#random_match_");
    push_signed_decimal(&mut out, millis);
    string_of(out.as_slice())
}

} // verus!
