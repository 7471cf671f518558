//! Decks locked to a room; registers nothing yet.
use vstd::prelude::*;

use crate::srvpru::plugins::PluginError;

use crate::srvpru::processor::{Registry, RegistryView};

verus! {

/// The registry after the plugin registered its handlers.
pub open spec fn spec_init(r0: RegistryView) -> RegistryView {
    r0
}

/// Register the plugin's handlers with the registry.
pub fn init(registry: &mut Registry) -> (r: Result<(), PluginError>)
    requires
        old(registry).wf(),
    ensures
        final(registry).wf(),
        final(registry)@ == spec_init(old(registry)@),
        r is Ok,
{
    Ok(())
}

} // verus!
