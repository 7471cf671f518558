//! Limit a match in time, then play death turns.
use vstd::prelude::*;

use crate::srvpru::plugins::PluginError;

use crate::srvpru::processor::{
    fresh_handler, spec_register_for_plugin, Handler, HandlerCondition, HandlerOccasion, Registry,
    RegistryView,
};
use crate::ygopro::message::{ctos, gm, srvpru, MessageType};
use crate::text::{decimal, push_decimal, push_str, string_of};
use crate::ygopro::constants::Netplayer;
use crate::srvpru::utils::CommonError;
use crate::srvpru::plugins::lp_recorder::lp_or_default;

verus! {

/// The registry after the plugin loaded its configuration and registered
/// its handlers; unchanged where its configuration was already
/// loaded, as a plugin starts once.
pub open spec fn spec_init(r: RegistryView) -> RegistryView {
    if r.configured.contains("tournament"@) {
        r
    } else {
        let r0 = RegistryView { configured: r.configured.insert("tournament"@), ..r };
        let r1 = spec_register_for_plugin(r0, fresh_handler(100, "tournament_duel_start"@, HandlerOccasion::Before, HandlerCondition::MessageType(MessageType::CTOS(ctos::MessageType::HsStart))), "tournament"@);
        let r2 = spec_register_for_plugin(r1, fresh_handler(100, "tournament_death_move"@, HandlerOccasion::Before, HandlerCondition::MessageType(MessageType::GM(gm::MessageType::NewTurn))), "tournament"@);
        let r3 = spec_register_for_plugin(r2, fresh_handler(100, "tournament_sudden_death"@, HandlerOccasion::Before, HandlerCondition::MessageType(MessageType::SRVPRU(srvpru::MessageType::LpChange))), "tournament"@);
        let r4 = spec_register_for_plugin(r3, fresh_handler(100, "tournament_room_attachment_dropper"@, HandlerOccasion::Before, HandlerCondition::MessageType(MessageType::SRVPRU(srvpru::MessageType::RoomDestroy))), "tournament"@);
        r4
    }
}

/// Register the plugin's handlers with the registry.
pub fn init(registry: &mut Registry) -> (r: Result<(), PluginError>)
    requires
        old(registry).wf(),
    ensures
        final(registry).wf(),
        final(registry)@ == spec_init(old(registry)@),
        r == (if old(registry)@.configured.contains("tournament"@) { Err(PluginError::ConfigurationAlreadySet) } else { Ok(()) }),
{
    if !registry.configure("tournament") {
        return Err(PluginError::ConfigurationAlreadySet);
    }
    Handler::new(100, "tournament_duel_start", HandlerOccasion::Before, HandlerCondition::MessageType(MessageType::CTOS(ctos::MessageType::HsStart))).register_for_plugin("tournament", registry);
    Handler::new(100, "tournament_death_move", HandlerOccasion::Before, HandlerCondition::MessageType(MessageType::GM(gm::MessageType::NewTurn))).register_for_plugin("tournament", registry);
    Handler::new(100, "tournament_sudden_death", HandlerOccasion::Before, HandlerCondition::MessageType(MessageType::SRVPRU(srvpru::MessageType::LpChange))).register_for_plugin("tournament", registry);
    Handler::new(100, "tournament_room_attachment_dropper", HandlerOccasion::Before, HandlerCondition::MessageType(MessageType::SRVPRU(srvpru::MessageType::RoomDestroy))).register_for_plugin("tournament", registry);
    Ok(())
}


pub fn default_round_time() -> (r: u64)
    ensures
        r == 40,
{
    40
}

/// The plugin's configuration.
#[derive(Clone, Debug)]
pub struct Configuration {
    /// Minutes before a match goes into death turns.
    pub round_time: u64,
}

impl Default for Configuration {
    fn default() -> (r: Configuration)
        ensures
            r.round_time == 40,
    {
        Configuration { round_time: default_round_time() }
    }
}

/// Seconds before a match goes into death turns; none where that is 0.
pub fn countdown_seconds(configuration: &Configuration) -> (r: Option<u64>)
    requires
        configuration.round_time * 60 <= u64::MAX,
    ensures
        r == (if configuration.round_time * 60 == 0 { None } else { Some((configuration.round_time * 60) as u64) }),
{
    let time = configuration.round_time * 60;
    if time == 0 { None } else { Some(time) }
}

/// Where a match stands.
#[derive(Copy, Clone, Debug, PartialEq, Eq, Structural)]
pub enum TournamentState {
    Duel,
    /// Death turns, with this many turns left.
    Death(u8),
    /// The next change of life points decides.
    Sudden,
}

impl Default for TournamentState {
    fn default() -> (r: TournamentState)
        ensures
            r == TournamentState::Duel,
    {
        TournamentState::Duel
    }
}

/// The state that the countdown sets when time is up.
pub fn death_start() -> (r: TournamentState)
    ensures
        r == TournamentState::Death(4),
{
    TournamentState::Death(4)
}

/// The player who loses by life points: the one with fewer; none where
/// they are equal.
pub open spec fn spec_loser_by_lp(player1_lp: i32, player2_lp: i32) -> Option<Netplayer> {
    if player1_lp < player2_lp {
        Some(Netplayer::Player1)
    } else if player1_lp > player2_lp {
        Some(Netplayer::Player2)
    } else {
        None
    }
}

/// The player who loses when a match is decided by life points.
pub fn decide_result_by_lp(player1_lp: i32, player2_lp: i32) -> (r: Option<Netplayer>)
    ensures
        r == spec_loser_by_lp(player1_lp, player2_lp),
{
    if player1_lp < player2_lp {
        Some(Netplayer::Player1)
    } else if player1_lp > player2_lp {
        Some(Netplayer::Player2)
    } else {
        None
    }
}

/// What deciding a match by life points does to a duelist.
#[derive(Copy, Clone, Debug, PartialEq, Eq, Structural)]
pub enum LpAction {
    /// Surrender on the duelist's behalf to the duel server.
    Surrender(Netplayer),
    /// Expel the duelist from the room.
    Expel(Netplayer),
}

/// The life points of a seat: those recorded, else 8000.
pub open spec fn seat_lp(recorded: Option<i32>) -> i32 {
    match recorded {
        Some(v) => v,
        None => 8000i32,
    }
}

/// What deciding a match by life points does, from the two duelists' seats
/// (`None` for an empty seat, else the life points recorded for it): the
/// loser surrenders and is expelled, and the match is decided; with equal
/// life points nothing happens and it is not; an empty seat is an error.
pub open spec fn spec_lp_decision(player1: Option<Option<i32>>, player2: Option<Option<i32>>) -> Result<(bool, Seq<LpAction>), CommonError> {
    match (player1, player2) {
        (Some(l1), Some(l2)) => match spec_loser_by_lp(seat_lp(l1), seat_lp(l2)) {
            Some(p) => Ok((true, seq![LpAction::Surrender(p), LpAction::Expel(p)])),
            None => Ok((false, Seq::empty())),
        },
        _ => Err(CommonError::PlayerNotExist),
    }
}

/// Deciding by life points: with both seats taken, the match is decided
/// exactly when the life points differ, and then the duelist with fewer
/// surrenders and is expelled, and nobody else; an empty seat is an error.
pub proof fn law_lower_life_points_lose(player1: Option<Option<i32>>, player2: Option<Option<i32>>)
    ensures
        (player1 is None || player2 is None) <==> spec_lp_decision(player1, player2) == Err::<(bool, Seq<LpAction>), CommonError>(CommonError::PlayerNotExist),
        spec_lp_decision(player1, player2) matches Ok((decided, actions)) ==> {
            let l1 = seat_lp(player1->0);
            let l2 = seat_lp(player2->0);
            &&& decided == (l1 != l2)
            &&& !decided ==> actions.len() == 0
            &&& decided ==> {
                let loser = if l1 < l2 { Netplayer::Player1 } else { Netplayer::Player2 };
                &&& actions == seq![LpAction::Surrender(loser), LpAction::Expel(loser)]
                &&& (loser == Netplayer::Player1 ==> l1 < l2)
                &&& (loser == Netplayer::Player2 ==> l2 < l1)
            }
        },
{
}

/// Decide a match by life points: which duelist surrenders and is expelled,
/// and whether the match was decided.
pub fn lp_decision(player1: Option<Option<i32>>, player2: Option<Option<i32>>) -> (r: Result<(bool, Vec<LpAction>), CommonError>)
    ensures
        match (r, spec_lp_decision(player1, player2)) {
            (Ok((d, v)), Ok((sd, sv))) => d == sd && v@ == sv,
            (Err(e), Err(se)) => e == se,
            _ => false,
        },
{
    let (l1, l2) = match (player1, player2) {
        (Some(l1), Some(l2)) => (lp_or_default(l1), lp_or_default(l2)),
        _ => return Err(CommonError::PlayerNotExist),
    };
    match decide_result_by_lp(l1, l2) {
        Some(p) => {
            let mut actions: Vec<LpAction> = Vec::new();
            actions.push(LpAction::Surrender(p));
            actions.push(LpAction::Expel(p));
            assert(actions@ =~= seq![LpAction::Surrender(p), LpAction::Expel(p)]);
            Ok((true, actions))
        },
        None => {
            let actions: Vec<LpAction> = Vec::new();
            assert(actions@ =~= Seq::<LpAction>::empty());
            Ok((false, actions))
        },
    }
}

/// What a new turn does in death turns.
#[derive(Copy, Clone, Debug, PartialEq, Eq, Structural)]
pub enum TurnOutcome {
    /// Nothing changes.
    Nothing,
    /// A death turn passed; this many are left.
    Remaining(u8),
    /// The last death turn passed and life points decided: this player loses.
    Decided(Netplayer),
    /// The last death turn passed with equal life points: sudden death.
    SuddenDeath,
}

/// The state after a new turn, counted once per turn of the first player,
/// and what it brings.
pub open spec fn spec_new_turn(state: TournamentState, position: Netplayer, player1_lp: i32, player2_lp: i32) -> (TournamentState, TurnOutcome) {
    if position != Netplayer::Player1 {
        (state, TurnOutcome::Nothing)
    } else {
        match state {
            TournamentState::Death(n) => if n <= 1 {
                match spec_loser_by_lp(player1_lp, player2_lp) {
                    Some(p) => (state, TurnOutcome::Decided(p)),
                    None => (TournamentState::Sudden, TurnOutcome::SuddenDeath),
                }
            } else {
                (TournamentState::Death((n - 1) as u8), TurnOutcome::Remaining((n - 1) as u8))
            },
            _ => (state, TurnOutcome::Nothing),
        }
    }
}

pub fn new_turn(state: TournamentState, position: Netplayer, player1_lp: i32, player2_lp: i32) -> (r: (TournamentState, TurnOutcome))
    requires
        state matches TournamentState::Death(n) ==> n >= 1,
    ensures
        r == spec_new_turn(state, position, player1_lp, player2_lp),
{
    if position != Netplayer::Player1 {
        return (state, TurnOutcome::Nothing);
    }
    match state {
        TournamentState::Death(n) => if n - 1 == 0 {
            match decide_result_by_lp(player1_lp, player2_lp) {
                Some(p) => (state, TurnOutcome::Decided(p)),
                None => (TournamentState::Sudden, TurnOutcome::SuddenDeath),
            }
        } else {
            (TournamentState::Death(n - 1), TurnOutcome::Remaining(n - 1))
        },
        _ => (state, TurnOutcome::Nothing),
    }
}

/// The message that tells how many death turns are left.
pub fn remaining_text(remain: u8) -> (r: String)
    ensures
        r@ == "{death_remain_part1} "@ + decimal(remain as nat) + " {death_remain_part2}"@,
{
    let mut out: Vec<char> = Vec::new();
    push_str(&mut out, "{death_remain_part1} ");
    push_decimal(&mut out, remain as u64);
    push_str(&mut out, " {death_remain_part2}");
    string_of(out.as_slice())
}

} // verus!
