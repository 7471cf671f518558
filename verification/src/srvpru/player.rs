//! Players: a name and the data sent before a room is joined.
use vstd::prelude::*;

use crate::srvpru::processor::{
    fresh_handler, spec_register, spec_register_handlers, strs, Handler, HandlerCondition,
    HandlerOccasion, Registry, RegistryView,
};
use crate::ygopro::message::{ctos, srvpru, Direction, MessageType};

verus! {

/// The registry after the plugin registered its handlers.
pub open spec fn spec_init(r0: RegistryView) -> RegistryView {
    let r1 = spec_register(r0, fresh_handler(10, "player_precursor_producer"@, HandlerOccasion::After, HandlerCondition::MessageType(MessageType::CTOS(ctos::MessageType::PlayerInfo))));
    let r2 = spec_register(r1, fresh_handler(2, "player_precursor_recorder"@, HandlerOccasion::Before, HandlerCondition::Always));
    let r3 = spec_register(r2, fresh_handler(100, "player_dropper"@, HandlerOccasion::After, HandlerCondition::MessageType(MessageType::SRVPRU(srvpru::MessageType::PlayerDestroy))));
    let r4 = spec_register(r3, fresh_handler(1, "player_mover"@, HandlerOccasion::After, HandlerCondition::MessageType(MessageType::SRVPRU(srvpru::MessageType::PlayerMove))));
    let r5 = spec_register_handlers(r4, "player"@, Direction::CTOS, seq!["player_precursor_producer"@, "player_precursor_recorder"@]);
    let r6 = spec_register_handlers(r5, "player"@, Direction::SRVPRU, seq!["player_dropper"@, "player_mover"@]);
    r6
}

/// Register the handlers that keep track of players.
pub fn init(registry: &mut Registry)
    requires
        old(registry).wf(),
    ensures
        final(registry).wf(),
        final(registry)@ == spec_init(old(registry)@),
{
    Handler::new(10, "player_precursor_producer", HandlerOccasion::After, HandlerCondition::MessageType(MessageType::CTOS(ctos::MessageType::PlayerInfo))).register(registry);
    Handler::new(2, "player_precursor_recorder", HandlerOccasion::Before, HandlerCondition::Always).register(registry);
    Handler::new(100, "player_dropper", HandlerOccasion::After, HandlerCondition::MessageType(MessageType::SRVPRU(srvpru::MessageType::PlayerDestroy))).register(registry);
    Handler::new(1, "player_mover", HandlerOccasion::After, HandlerCondition::MessageType(MessageType::SRVPRU(srvpru::MessageType::PlayerMove))).register(registry);
    {
        let mut names: Vec<&str> = Vec::new();
        names.push("player_precursor_producer");
        names.push("player_precursor_recorder");
        assert(strs(names@) =~= seq!["player_precursor_producer"@, "player_precursor_recorder"@]);
        Handler::register_handlers("player", Direction::CTOS, names, registry);
    }
    {
        let mut names: Vec<&str> = Vec::new();
        names.push("player_dropper");
        names.push("player_mover");
        assert(strs(names@) =~= seq!["player_dropper"@, "player_mover"@]);
        Handler::register_handlers("player", Direction::SRVPRU, names, registry);
    }
}

/// A client that sent its name but is in no room yet: its name and what it
/// sent so far, kept for the duel server.
#[derive(Clone, Debug)]
pub struct PlayerPrecursor {
    pub name: String,
    pub data_cache: Vec<Vec<u8>>,
}

pub struct PlayerPrecursorView {
    pub name: Seq<char>,
    pub data_cache: Seq<Seq<u8>>,
}

impl View for PlayerPrecursor {
    type V = PlayerPrecursorView;

    open spec fn view(&self) -> PlayerPrecursorView {
        PlayerPrecursorView { name: self.name@, data_cache: self.data_cache@.map_values(|d: Vec<u8>| d@) }
    }
}

pub(crate) fn copy_bytes(data: &[u8]) -> (r: Vec<u8>)
    ensures
        r@ == data@,
{
    let mut out: Vec<u8> = Vec::new();
    let mut i: usize = 0;
    while i < data.len()
        invariant
            i <= data@.len(),
            out@ == data@.take(i as int),
        decreases data@.len() - i,
    {
        out.push(data[i]);
        i = i + 1;
        assert(out@ =~= data@.take(i as int));
    }
    assert(data@.take(i as int) =~= data@);
    out
}

impl PlayerPrecursor {
    /// A client that sent its name in `data`.
    pub fn new(name: String, data: &[u8]) -> (r: PlayerPrecursor)
        ensures
            r@.name == name@,
            r@.data_cache == seq![data@],
    {
        let mut data_cache: Vec<Vec<u8>> = Vec::new();
        data_cache.push(copy_bytes(data));
        let r = PlayerPrecursor { name, data_cache };
        assert(r@.data_cache =~= seq![data@]);
        r
    }

    /// Keep more data that the client sent.
    pub fn buffer_data(&mut self, data: &[u8])
        ensures
            final(self)@.name == old(self)@.name,
            final(self)@.data_cache == old(self)@.data_cache.push(data@),
    {
        let copied = copy_bytes(data);
        self.data_cache.push(copied);
        assert(self@.data_cache =~= old(self)@.data_cache.push(data@));
    }
}

} // verus!
