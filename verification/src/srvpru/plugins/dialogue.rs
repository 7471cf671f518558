//! Show a dialogue when certain monsters are summoned.
use vstd::prelude::*;

use crate::srvpru::plugins::PluginError;

use crate::srvpru::processor::{
    fresh_handler, spec_register, spec_register_handlers, strs, Handler, HandlerCondition,
    HandlerOccasion, Registry, RegistryView,
};
use crate::ygopro::message::{gm, Direction, MessageType};
use std::collections::HashMap;

use crate::srvpru::plugins::choose_one;
use crate::text::{chars_of, split_chars, split_on, string_of};

verus! {

/// The registry after the plugin loaded its configuration and registered
/// its handlers; unchanged where its configuration was already
/// loaded, as a plugin starts once.
pub open spec fn spec_init(r: RegistryView) -> RegistryView {
    if r.configured.contains("dialogue"@) {
        r
    } else {
        let r0 = RegistryView { configured: r.configured.insert("dialogue"@), ..r };
        let r1 = spec_register(r0, fresh_handler(100, "dialogue_normal_summon"@, HandlerOccasion::After, HandlerCondition::MessageType(MessageType::GM(gm::MessageType::Summoning))));
        let r2 = spec_register(r1, fresh_handler(100, "dialogue_special_summon"@, HandlerOccasion::After, HandlerCondition::MessageType(MessageType::GM(gm::MessageType::Spsummoning))));
        let r3 = spec_register_handlers(r2, "dialogue"@, Direction::STOC, seq!["dialogue_normal_summon"@, "dialogue_special_summon"@]);
        r3
    }
}

/// Register the plugin's handlers with the registry.
pub fn init(registry: &mut Registry) -> (r: Result<(), PluginError>)
    requires
        old(registry).wf(),
    ensures
        final(registry).wf(),
        final(registry)@ == spec_init(old(registry)@),
        r == (if old(registry)@.configured.contains("dialogue"@) { Err(PluginError::ConfigurationAlreadySet) } else { Ok(()) }),
{
    if !registry.configure("dialogue") {
        return Err(PluginError::ConfigurationAlreadySet);
    }
    Handler::new(100, "dialogue_normal_summon", HandlerOccasion::After, HandlerCondition::MessageType(MessageType::GM(gm::MessageType::Summoning))).register(registry);
    Handler::new(100, "dialogue_special_summon", HandlerOccasion::After, HandlerCondition::MessageType(MessageType::GM(gm::MessageType::Spsummoning))).register(registry);
    {
        let mut names: Vec<&str> = Vec::new();
        names.push("dialogue_normal_summon");
        names.push("dialogue_special_summon");
        assert(strs(names@) =~= seq!["dialogue_normal_summon"@, "dialogue_special_summon"@]);
        Handler::register_handlers("dialogue", Direction::STOC, names, registry);
    }
    Ok(())
}


broadcast use vstd::std_specs::hash::group_hash_axioms;

/// The plugin's configuration.
#[derive(Clone, Debug)]
pub struct Configuration {
    /// The dialogues of each card code; each dialogue may hold several
    /// lines.
    pub dialogues: HashMap<u32, Vec<String>>,
}

/// Whether a card has dialogues.
pub fn exist_dialogue(configuration: &Configuration, card: u32) -> (r: bool)
    ensures
        r == configuration.dialogues@.contains_key(card),
{
    configuration.dialogues.contains_key(&card)
}

/// The chat lines of a dialogue: each of its lines after `[Server]: `.
pub open spec fn dialogue_lines(dialogue: Seq<char>) -> Seq<Seq<char>> {
    split_on(dialogue, '\n').map_values(|l: Seq<char>| "[Server]: "@ + l)
}

pub fn lines_of_dialogue(dialogue: &str) -> (r: Vec<String>)
    ensures
        r@.map_values(|s: String| s@) == dialogue_lines(dialogue@),
{
    let cs = chars_of(dialogue);
    let pieces = split_chars(cs.as_slice(), '\n');
    let ghost ps = crate::text::pieces_view(pieces@);
    let mut out: Vec<String> = Vec::new();
    let mut i: usize = 0;
    while i < pieces.len()
        invariant
            ps == crate::text::pieces_view(pieces@),
            ps == split_on(dialogue@, '\n'),
            i <= ps.len(),
            out@.map_values(|s: String| s@) == ps.take(i as int).map_values(|l: Seq<char>| "[Server]: "@ + l),
        decreases ps.len() - i,
    {
        let mut line: Vec<char> = Vec::new();
        crate::text::push_str(&mut line, "[Server]: ");
        let mut k: usize = 0;
        let ghost head = line@;
        while k < pieces[i].len()
            invariant
                i < pieces@.len(),
                k <= pieces@[i as int]@.len(),
                line@ == head + pieces@[i as int]@.take(k as int),
            decreases pieces@[i as int]@.len() - k,
        {
            line.push(pieces[i][k]);
            k = k + 1;
            assert(line@ =~= head + pieces@[i as int]@.take(k as int));
        }
        assert(pieces@[i as int]@.take(k as int) =~= pieces@[i as int]@);
        let ghost prev = out@;
        out.push(string_of(line.as_slice()));
        assert(out@.map_values(|s: String| s@) =~= prev.map_values(|s: String| s@).push("[Server]: "@ + ps[i as int]));
        i = i + 1;
        assert(ps.take(i as int).map_values(|l: Seq<char>| "[Server]: "@ + l) =~= ps.take(i - 1).map_values(|l: Seq<char>| "[Server]: "@ + l).push("[Server]: "@ + ps[i - 1]));
    }
    assert(ps.take(i as int) =~= ps);
    out
}

/// The chat lines of one of a card's dialogues, chosen at random; none
/// where the card has no dialogue.
pub fn pick_dialogue(configuration: &Configuration, card: u32) -> (r: Option<Vec<String>>)
    ensures
        !configuration.dialogues@.contains_key(card) ==> r is None,
        configuration.dialogues@.contains_key(card) ==> {
            let ds = configuration.dialogues@[card];
            &&& r is None <==> ds@.len() == 0
            &&& r matches Some(lines) ==> exists|i: int| 0 <= i < ds@.len()
                && lines@.map_values(|s: String| s@) == dialogue_lines(ds@[i]@)
        },
{
    match configuration.dialogues.get(&card) {
        None => None,
        Some(ds) => match choose_one(ds.as_slice()) {
            None => None,
            Some(d) => {
                let lines = lines_of_dialogue(d.as_str());
                proof {
                    let i = choose|i: int| 0 <= i < ds@.len() && ds@[i] == *d;
                    assert(lines@.map_values(|s: String| s@) == dialogue_lines(ds@[i]@));
                }
                Some(lines)
            },
        },
    }
}

} // verus!
