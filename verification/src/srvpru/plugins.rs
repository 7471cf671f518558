//! Plugins: what each registers with the server, and the decisions its
//! handlers take.
use rand::seq::SliceRandom;
use vstd::prelude::*;

use crate::srvpru::processor::RegistryView;

pub mod anonymous_opponent;
pub mod arena;
pub mod base;
pub mod debugger;
pub mod deck_report;
pub mod delayed_replay;
pub mod dialogue;
pub mod heartbeat;
pub mod lock_deck;
pub mod lp_recorder;
pub mod max_rooms_count;
pub mod mc_login;
pub mod must_start;
pub mod newspeak;
pub mod no_roping;
pub mod position_recorder;
pub mod random_match;
pub mod reconnect;
pub mod recorder;
pub mod result_report;
pub mod room_list;
pub mod stage_recorder;
pub mod telescreen;
pub mod tip;
pub mod tournament;
pub mod version_checker;
pub mod virtual_password;
pub mod welcome;
pub mod windbot;

verus! {

/// Why a plugin could not start.
#[derive(Copy, Clone, Debug, PartialEq, Eq, Structural)]
pub enum PluginError {
    /// The plugin's configuration was loaded before: it started already.
    ConfigurationAlreadySet,
}

/// Picks one of `items` at random: `rand::seq::SliceRandom::choose` with
/// the thread's generator. Which item comes back is left to chance; there
/// is none only when there are no items.
#[verifier::external_body]
pub(crate) fn choose_one<T>(items: &[T]) -> (r: Option<&T>)
    ensures
        r is None <==> items@.len() == 0,
        r matches Some(x) ==> items@.contains(*x),
{
    items.choose(&mut rand::thread_rng())
}

/// Whether a plugin is among the enabled ones.
pub fn plugin_enabled(plugins: &[String], plugin_name: &str) -> (r: bool)
    ensures
        r == plugins@.map_values(|s: String| s@).contains(plugin_name@),
{
    let name = plugin_name.to_owned();
    let ghost v = plugins@.map_values(|s: String| s@);
    let mut i: usize = 0;
    while i < plugins.len()
        invariant
            v == plugins@.map_values(|s: String| s@),
            name@ == plugin_name@,
            i <= plugins@.len(),
            forall|j: int| 0 <= j < i ==> v[j] != plugin_name@,
        decreases plugins@.len() - i,
    {
        if plugins[i] == name {
            assert(v[i as int] == plugin_name@);
            return true;
        }
        i = i + 1;
    }
    false
}

/// A plugin that loads a configuration starts once: starting it again
/// leaves the registry as the first start left it.
pub proof fn law_plugins_start_once(r: RegistryView)
    ensures
        arena::spec_init(arena::spec_init(r)) == arena::spec_init(r),
        deck_report::spec_init(deck_report::spec_init(r)) == deck_report::spec_init(r),
        dialogue::spec_init(dialogue::spec_init(r)) == dialogue::spec_init(r),
        heartbeat::spec_init(heartbeat::spec_init(r)) == heartbeat::spec_init(r),
        max_rooms_count::spec_init(max_rooms_count::spec_init(r)) == max_rooms_count::spec_init(r),
        mc_login::spec_init(mc_login::spec_init(r)) == mc_login::spec_init(r),
        must_start::spec_init(must_start::spec_init(r)) == must_start::spec_init(r),
        newspeak::spec_init(newspeak::spec_init(r)) == newspeak::spec_init(r),
        no_roping::spec_init(no_roping::spec_init(r)) == no_roping::spec_init(r),
        reconnect::spec_init(reconnect::spec_init(r)) == reconnect::spec_init(r),
        result_report::spec_init(result_report::spec_init(r)) == result_report::spec_init(r),
        room_list::spec_init(room_list::spec_init(r)) == room_list::spec_init(r),
        tip::spec_init(tip::spec_init(r)) == tip::spec_init(r),
        tournament::spec_init(tournament::spec_init(r)) == tournament::spec_init(r),
        welcome::spec_init(welcome::spec_init(r)) == welcome::spec_init(r),
        windbot::spec_init(windbot::spec_init(r)) == windbot::spec_init(r),
        base::api::spec_init(r).configured.contains("api"@),
{
}

} // verus!
