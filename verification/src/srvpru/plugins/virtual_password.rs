//! A `$` in a player's name starts a password.
use vstd::prelude::*;

use crate::srvpru::plugins::PluginError;

use crate::srvpru::processor::{
    fresh_handler, spec_register, spec_register_handlers, strs, Handler, HandlerCondition,
    HandlerOccasion, Registry, RegistryView,
};
use crate::ygopro::message::{ctos, Direction, MessageType};
use crate::text::{chars_of, string_of};

verus! {

/// The registry after the plugin registered its handlers.
pub open spec fn spec_init(r0: RegistryView) -> RegistryView {
    let r1 = spec_register(r0, fresh_handler(11, "virtual_password"@, HandlerOccasion::Before, HandlerCondition::MessageType(MessageType::CTOS(ctos::MessageType::PlayerInfo))));
    let r2 = spec_register_handlers(r1, "virtual_password"@, Direction::CTOS, seq!["virtual_password"@]);
    r2
}

/// Register the plugin's handlers with the registry.
pub fn init(registry: &mut Registry) -> (r: Result<(), PluginError>)
    requires
        old(registry).wf(),
    ensures
        final(registry).wf(),
        final(registry)@ == spec_init(old(registry)@),
        r is Ok,
{
    Handler::new(11, "virtual_password", HandlerOccasion::Before, HandlerCondition::MessageType(MessageType::CTOS(ctos::MessageType::PlayerInfo))).register(registry);
    {
        let mut names: Vec<&str> = Vec::new();
        names.push("virtual_password");
        assert(strs(names@) =~= seq!["virtual_password"@]);
        Handler::register_handlers("virtual_password", Direction::CTOS, names, registry);
    }
    Ok(())
}


/// The index of the last `c` in `s`, or -1.
pub open spec fn last_index_of(s: Seq<char>, c: char) -> int
    decreases s.len(),
{
    if s.len() == 0 {
        -1
    } else if s.last() == c {
        s.len() - 1
    } else {
        last_index_of(s.drop_last(), c)
    }
}

proof fn lemma_last_index_bound(s: Seq<char>, c: char)
    ensures
        -1 <= last_index_of(s, c) < s.len(),
        last_index_of(s, c) >= 0 ==> s[last_index_of(s, c)] == c,
    decreases s.len(),
{
    if s.len() > 0 && s.last() != c {
        lemma_last_index_bound(s.drop_last(), c);
    }
}

/// The name before the last `$` of a player's name, where it has one: what
/// follows the `$` is a password and not part of the name.
pub open spec fn spec_actual_name(name: Seq<char>) -> Option<Seq<char>> {
    let i = last_index_of(name, '$');
    if i >= 0 { Some(name.take(i)) } else { None }
}

/// The name before the last `$` of a player's name, if it has one.
pub fn actual_name(name: &str) -> (r: Option<String>)
    ensures
        match r {
            Some(s) => spec_actual_name(name@) == Some(s@),
            None => spec_actual_name(name@) is None,
        },
{
    let cs = chars_of(name);
    let mut i: usize = cs.len();
    proof { lemma_last_index_bound(name@, '$'); }
    assert(cs@.take(i as int) =~= cs@);
    while i > 0 && cs[i - 1] != '$'
        invariant
            cs@ == name@,
            i <= cs@.len(),
            last_index_of(name@, '$') == last_index_of(cs@.take(i as int), '$'),
        decreases i,
    {
        proof {
            assert(cs@.take(i as int).drop_last() =~= cs@.take(i - 1));
        }
        i = i - 1;
    }
    if i == 0 {
        assert(cs@.take(0) =~= Seq::<char>::empty());
        return None;
    }
    let mut out: Vec<char> = Vec::new();
    let mut k: usize = 0;
    while k < i - 1
        invariant
            cs@ == name@,
            0 < i <= cs@.len(),
            k <= i - 1,
            out@ == cs@.take(k as int),
        decreases i - 1 - k,
    {
        out.push(cs[k]);
        k = k + 1;
        assert(out@ =~= cs@.take(k as int));
    }
    assert(cs@.take(i as int).last() == '$');
    assert(cs@.take(i as int).take(i - 1) =~= cs@.take(i - 1));
    Some(string_of(out.as_slice()))
}

} // verus!
