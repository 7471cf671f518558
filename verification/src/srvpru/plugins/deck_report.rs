//! Report each player's deck when a duel starts.
use vstd::prelude::*;

use crate::srvpru::plugins::PluginError;

use crate::srvpru::processor::{
    fresh_handler, spec_register, spec_register_dependencies, spec_register_handlers, strs,
    Handler, HandlerCondition, HandlerOccasion, Registry, RegistryView,
};
use crate::ygopro::message::{stoc, Direction, MessageType};
use crate::ygopro::data::{deck_text, Deck};

verus! {

/// The registry after the plugin loaded its configuration and registered
/// its handlers and dependencies; unchanged where its configuration was already
/// loaded, as a plugin starts once.
pub open spec fn spec_init(r: RegistryView) -> RegistryView {
    if r.configured.contains("deck_report"@) {
        r
    } else {
        let r0 = RegistryView { configured: r.configured.insert("deck_report"@), ..r };
        let r1 = spec_register_dependencies(r0, "deck_report"@, seq!["deck_recorder"@, "position_recorder"@]);
        let r2 = spec_register(r1, fresh_handler(100, "deck_report"@, HandlerOccasion::After, HandlerCondition::MessageType(MessageType::STOC(stoc::MessageType::DuelStart))));
        let r3 = spec_register_handlers(r2, "deck_report"@, Direction::STOC, seq!["deck_report"@]);
        r3
    }
}

/// Register the plugin's handlers with the registry.
pub fn init(registry: &mut Registry) -> (r: Result<(), PluginError>)
    requires
        old(registry).wf(),
    ensures
        final(registry).wf(),
        final(registry)@ == spec_init(old(registry)@),
        r == (if old(registry)@.configured.contains("deck_report"@) { Err(PluginError::ConfigurationAlreadySet) } else { Ok(()) }),
{
    if !registry.configure("deck_report") {
        return Err(PluginError::ConfigurationAlreadySet);
    }
    {
        let mut names: Vec<&str> = Vec::new();
        names.push("deck_recorder");
        names.push("position_recorder");
        assert(strs(names@) =~= seq!["deck_recorder"@, "position_recorder"@]);
        Handler::register_dependencies("deck_report", names, registry);
    }
    Handler::new(100, "deck_report", HandlerOccasion::After, HandlerCondition::MessageType(MessageType::STOC(stoc::MessageType::DuelStart))).register(registry);
    {
        let mut names: Vec<&str> = Vec::new();
        names.push("deck_report");
        assert(strs(names@) =~= seq!["deck_report"@]);
        Handler::register_handlers("deck_report", Direction::STOC, names, registry);
    }
    Ok(())
}


/// The plugin's configuration.
#[derive(Clone, Debug)]
pub struct Configuration {
    pub endpoint: String,
    pub access_key: String,
    pub arena: String,
}

/// A player's deck, to be reported.
#[derive(Clone, Debug)]
pub struct DeckReport {
    pub access_key: String,
    pub deck: Deck,
    pub player_name: String,
    pub arena: String,
}

impl DeckReport {
    /// The report as form fields.
    pub fn to_form(self) -> (r: Vec<(&'static str, String)>)
        ensures
            r@.map_values(|p: (&'static str, String)| (p.0@, p.1@)) == seq![
                ("accesskey"@, self.access_key@),
                ("deck"@, deck_text(self.deck@)),
                ("playername"@, self.player_name@),
                ("arena"@, self.arena@)
            ],
    {
        let ghost this = self;
        let deck = self.deck.to_string();
        let mut r: Vec<(&'static str, String)> = Vec::new();
        r.push(("accesskey", self.access_key));
        r.push(("deck", deck));
        r.push(("playername", self.player_name));
        r.push(("arena", self.arena));
        assert(r@.map_values(|p: (&'static str, String)| (p.0@, p.1@)) =~= seq![
            ("accesskey"@, this.access_key@),
            ("deck"@, deck_text(this.deck@)),
            ("playername"@, this.player_name@),
            ("arena"@, this.arena@)
        ]);
        r
    }
}

} // verus!
