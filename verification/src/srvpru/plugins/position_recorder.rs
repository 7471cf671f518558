//! Record the seat of each player.
use vstd::prelude::*;

use crate::srvpru::plugins::PluginError;

use crate::srvpru::processor::{
    fresh_handler, spec_register, spec_register_handlers, strs, Handler, HandlerCondition,
    HandlerOccasion, HandlerView, Registry, RegistryView,
};
use crate::ygopro::message::{stoc, srvpru, Direction, MessageType};
use crate::ygopro::constants::{Mode, Netplayer};

verus! {

/// The registry after the plugin registered its handlers.
pub open spec fn spec_init(r0: RegistryView) -> RegistryView {
    let r1 = spec_register(r0, fresh_handler(100, "position_recorder"@, HandlerOccasion::After, HandlerCondition::MessageType(MessageType::STOC(stoc::MessageType::TypeChange))));
    let r2 = spec_register(r1, (HandlerView { name: "position_recorder_player_attachment_dropper"@, ..fresh_handler(100, ""@, HandlerOccasion::After, HandlerCondition::MessageType(MessageType::SRVPRU(srvpru::MessageType::PlayerDestroy))) }));
    let r3 = spec_register_handlers(r2, "position_recorder"@, Direction::SRVPRU, seq!["position_recorder_player_attachment_dropper"@]);
    let r4 = spec_register_handlers(r3, "position_recorder"@, Direction::STOC, seq!["position_recorder"@]);
    r4
}

/// Register the plugin's handlers with the registry.
pub fn init(registry: &mut Registry) -> (r: Result<(), PluginError>)
    requires
        old(registry).wf(),
    ensures
        final(registry).wf(),
        final(registry)@ == spec_init(old(registry)@),
        r is Ok,
{
    Handler::new(100, "position_recorder", HandlerOccasion::After, HandlerCondition::MessageType(MessageType::STOC(stoc::MessageType::TypeChange))).register(registry);
    Handler::new(100, "", HandlerOccasion::After, HandlerCondition::MessageType(MessageType::SRVPRU(srvpru::MessageType::PlayerDestroy))).register_as("position_recorder_player_attachment_dropper", registry);
    {
        let mut names: Vec<&str> = Vec::new();
        names.push("position_recorder_player_attachment_dropper");
        assert(strs(names@) =~= seq!["position_recorder_player_attachment_dropper"@]);
        Handler::register_handlers("position_recorder", Direction::SRVPRU, names, registry);
    }
    {
        let mut names: Vec<&str> = Vec::new();
        names.push("position_recorder");
        assert(strs(names@) =~= seq!["position_recorder"@]);
        Handler::register_handlers("position_recorder", Direction::STOC, names, registry);
    }
    Ok(())
}


/// The seat that a type-change message gives: its low four bits.
pub open spec fn spec_position_of_type(t: u8) -> Option<Netplayer> {
    Netplayer::spec_try_from(t & 0xf)
}

/// Whether a type-change message makes its player the host: any of its high
/// four bits is set.
pub open spec fn spec_host_of_type(t: u8) -> bool {
    t & 0xf0 != 0
}

/// A player's seat and host flag after a type-change message: a seat that
/// the message does not name leaves the seat as it was.
pub fn record_type_change(position: Netplayer, t: u8) -> (r: (Netplayer, bool))
    ensures
        r.0 == match spec_position_of_type(t) {
            Some(p) => p,
            None => position,
        },
        r.1 == spec_host_of_type(t),
{
    let p = match Netplayer::try_from_u8(t & 0xf) {
        Some(p) => p,
        None => position,
    };
    (p, t & 0xf0 > 0)
}

/// The seat of a player that recorded one, else `Observer`.
pub fn position_or_observer(recorded: Option<Netplayer>) -> (r: Netplayer)
    ensures
        r == match recorded {
            Some(p) => p,
            None => Netplayer::Observer,
        },
{
    match recorded {
        Some(p) => p,
        None => Netplayer::Observer,
    }
}

/// Whether a room of `mode` is full when its players sit at `positions`:
/// the two duelist seats of a single or match duel, the four of a tag duel.
pub open spec fn spec_is_full(mode: Mode, positions: Seq<Netplayer>) -> bool {
    match mode {
        Mode::Single | Mode::Match => positions.contains(Netplayer::Player1) && positions.contains(Netplayer::Player2),
        Mode::Tag => positions.contains(Netplayer::Player1) && positions.contains(Netplayer::Player2)
            && positions.contains(Netplayer::Player3) && positions.contains(Netplayer::Player4),
    }
}

fn contains_position(positions: &[Netplayer], p: Netplayer) -> (r: bool)
    ensures
        r == positions@.contains(p),
{
    let mut i: usize = 0;
    while i < positions.len()
        invariant
            i <= positions@.len(),
            forall|j: int| 0 <= j < i ==> positions@[j] != p,
        decreases positions@.len() - i,
    {
        if positions[i] == p {
            assert(positions@[i as int] == p);
            return true;
        }
        i = i + 1;
    }
    false
}

pub fn is_full(mode: Mode, positions: &[Netplayer]) -> (r: bool)
    ensures
        r == spec_is_full(mode, positions@),
{
    match mode {
        Mode::Single | Mode::Match => contains_position(positions, Netplayer::Player1) && contains_position(positions, Netplayer::Player2),
        Mode::Tag => contains_position(positions, Netplayer::Player1) && contains_position(positions, Netplayer::Player2)
            && contains_position(positions, Netplayer::Player3) && contains_position(positions, Netplayer::Player4),
    }
}

/// The first player marked as host, if any.
pub fn get_host(hosts: &[bool]) -> (r: Option<usize>)
    ensures
        match r {
            Some(i) => i < hosts@.len() && hosts@[i as int] && forall|j: int| 0 <= j < i ==> !hosts@[j],
            None => forall|j: int| 0 <= j < hosts@.len() ==> !hosts@[j],
        },
{
    let mut i: usize = 0;
    while i < hosts.len()
        invariant
            i <= hosts@.len(),
            forall|j: int| 0 <= j < i ==> !hosts@[j],
        decreases hosts@.len() - i,
    {
        if hosts[i] {
            return Some(i);
        }
        i = i + 1;
    }
    None
}

/// The indices of the players at seat number `v` among `positions`, in order.
pub open spec fn seated_at(positions: Seq<Netplayer>, v: int) -> Seq<int>
    decreases positions.len(),
{
    if positions.len() == 0 {
        Seq::empty()
    } else if positions.last().spec_value() == v {
        seated_at(positions.drop_last(), v).push(positions.len() - 1)
    } else {
        seated_at(positions.drop_last(), v)
    }
}

/// The indices of the players by seat, seat numbers below `n` first; players
/// at one seat keep their order.
pub open spec fn in_order_below(positions: Seq<Netplayer>, n: int) -> Seq<int>
    decreases n,
{
    if n <= 0 { Seq::empty() } else { in_order_below(positions, n - 1) + seated_at(positions, n - 1) }
}

/// The indices of the players sorted by seat.
pub fn players_in_order(positions: &[Netplayer]) -> (r: Vec<usize>)
    ensures
        r@.map_values(|i: usize| i as int) == in_order_below(positions@, 256),
{
    let mut out: Vec<usize> = Vec::new();
    let mut v: u16 = 0;
    while v < 256
        invariant
            v <= 256,
            out@.map_values(|i: usize| i as int) == in_order_below(positions@, v as int),
        decreases 256 - v,
    {
        let ghost start = out@.map_values(|i: usize| i as int);
        let mut i: usize = 0;
        while i < positions.len()
            invariant
                v < 256,
                i <= positions@.len(),
                start == in_order_below(positions@, v as int),
                out@.map_values(|i: usize| i as int) == start + seated_at(positions@.take(i as int), v as int),
            decreases positions@.len() - i,
        {
            proof {
                assert(positions@.take(i + 1).drop_last() =~= positions@.take(i as int));
                assert(positions@.take(i + 1).last() == positions@[i as int]);
            }
            let ghost prev = out@;
            if positions[i].into_u8() as u16 == v {
                out.push(i);
                assert(out@.map_values(|i: usize| i as int) =~= prev.map_values(|i: usize| i as int).push(i as int));
            }
            assert(out@.map_values(|i: usize| i as int) =~= start + seated_at(positions@.take(i + 1), v as int));
            i = i + 1;
        }
        assert(positions@.take(i as int) =~= positions@);
        v = v + 1;
    }
    out
}

} // verus!
