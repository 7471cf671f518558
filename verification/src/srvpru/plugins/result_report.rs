//! Report the result of a match when it ends.
use vstd::prelude::*;

use crate::srvpru::plugins::PluginError;

use crate::srvpru::processor::{
    fresh_handler, spec_register, spec_register_handlers, strs, Handler, HandlerCondition,
    HandlerOccasion, HandlerView, Registry, RegistryView,
};
use crate::ygopro::message::{gm, srvpru, Direction, MessageType};
use crate::text::{push_signed_decimal, signed_decimal, string_of};
use crate::ygopro::constants::Netplayer;
use crate::ygopro::data::{deck_text, Deck};

verus! {

/// The registry after the plugin loaded its configuration and registered
/// its handlers; unchanged where its configuration was already
/// loaded, as a plugin starts once.
pub open spec fn spec_init(r: RegistryView) -> RegistryView {
    if r.configured.contains("result_report"@) {
        r
    } else {
        let r0 = RegistryView { configured: r.configured.insert("result_report"@), ..r };
        let r1 = spec_register(r0, fresh_handler(95, "match_result_sender"@, HandlerOccasion::Before, HandlerCondition::MessageType(MessageType::SRVPRU(srvpru::MessageType::RoomDestroy))));
        let r2 = spec_register(r1, fresh_handler(100, "match_result_player_drop_listener"@, HandlerOccasion::Before, HandlerCondition::MessageType(MessageType::SRVPRU(srvpru::MessageType::PlayerDestroy))));
        let r3 = spec_register(r2, fresh_handler(100, "match_result_countor"@, HandlerOccasion::Before, HandlerCondition::MessageType(MessageType::GM(gm::MessageType::Win))));
        let r4 = spec_register(r3, fresh_handler(100, "match_result_first_recorder"@, HandlerOccasion::Before, HandlerCondition::MessageType(MessageType::GM(gm::MessageType::Start))));
        let r5 = spec_register(r4, (HandlerView { name: "result_report_room_attachment_dropper"@, ..fresh_handler(100, ""@, HandlerOccasion::After, HandlerCondition::MessageType(MessageType::SRVPRU(srvpru::MessageType::RoomDestroy))) }));
        let r6 = spec_register_handlers(r5, "result_report"@, Direction::SRVPRU, seq!["match_result_sender"@, "match_result_player_drop_listener"@]);
        let r7 = spec_register_handlers(r6, "result_report"@, Direction::STOC, seq!["match_result_countor"@, "match_result_first_recorder"@]);
        r7
    }
}

/// Register the plugin's handlers with the registry.
pub fn init(registry: &mut Registry) -> (r: Result<(), PluginError>)
    requires
        old(registry).wf(),
    ensures
        final(registry).wf(),
        final(registry)@ == spec_init(old(registry)@),
        r == (if old(registry)@.configured.contains("result_report"@) { Err(PluginError::ConfigurationAlreadySet) } else { Ok(()) }),
{
    if !registry.configure("result_report") {
        return Err(PluginError::ConfigurationAlreadySet);
    }
    Handler::new(95, "match_result_sender", HandlerOccasion::Before, HandlerCondition::MessageType(MessageType::SRVPRU(srvpru::MessageType::RoomDestroy))).register(registry);
    Handler::new(100, "match_result_player_drop_listener", HandlerOccasion::Before, HandlerCondition::MessageType(MessageType::SRVPRU(srvpru::MessageType::PlayerDestroy))).register(registry);
    Handler::new(100, "match_result_countor", HandlerOccasion::Before, HandlerCondition::MessageType(MessageType::GM(gm::MessageType::Win))).register(registry);
    Handler::new(100, "match_result_first_recorder", HandlerOccasion::Before, HandlerCondition::MessageType(MessageType::GM(gm::MessageType::Start))).register(registry);
    Handler::new(100, "", HandlerOccasion::After, HandlerCondition::MessageType(MessageType::SRVPRU(srvpru::MessageType::RoomDestroy))).register_as("result_report_room_attachment_dropper", registry);
    {
        let mut names: Vec<&str> = Vec::new();
        names.push("match_result_sender");
        names.push("match_result_player_drop_listener");
        assert(strs(names@) =~= seq!["match_result_sender"@, "match_result_player_drop_listener"@]);
        Handler::register_handlers("result_report", Direction::SRVPRU, names, registry);
    }
    {
        let mut names: Vec<&str> = Vec::new();
        names.push("match_result_countor");
        names.push("match_result_first_recorder");
        assert(strs(names@) =~= seq!["match_result_countor"@, "match_result_first_recorder"@]);
        Handler::register_handlers("result_report", Direction::STOC, names, registry);
    }
    Ok(())
}


/// A player's score in a match.
#[derive(Copy, Clone, Debug, PartialEq, Eq, Structural)]
pub enum MatchScore {
    NotStarted,
    Dropped,
    Zero,
    One,
    Two,
    Three,
}

impl MatchScore {
    /// The number that reports a score.
    pub open spec fn spec_value(self) -> i8 {
        match self {
            MatchScore::NotStarted => -5i8,
            MatchScore::Dropped => -9i8,
            MatchScore::Zero => 0,
            MatchScore::One => 1,
            MatchScore::Two => 2,
            MatchScore::Three => 3,
        }
    }

    pub fn into_i8(self) -> (r: i8)
        ensures
            r == self.spec_value(),
    {
        match self {
            MatchScore::NotStarted => -5,
            MatchScore::Dropped => -9,
            MatchScore::Zero => 0,
            MatchScore::One => 1,
            MatchScore::Two => 2,
            MatchScore::Three => 3,
        }
    }

    /// The score after a won game: one more, up to three; a match not
    /// started or dropped keeps its score.
    pub open spec fn spec_step(self) -> MatchScore {
        match self {
            MatchScore::Zero => MatchScore::One,
            MatchScore::One => MatchScore::Two,
            MatchScore::Two => MatchScore::Three,
            _ => self,
        }
    }

    pub fn step(&mut self)
        ensures
            *final(self) == old(self).spec_step(),
    {
        *self = match *self {
            MatchScore::Zero => MatchScore::One,
            MatchScore::One => MatchScore::Two,
            MatchScore::Two => MatchScore::Three,
            s => s,
        };
    }
}

/// A won game adds one to a score of a started match, up to three; a match
/// not started or dropped, and a score of three, stay as they are.
pub proof fn lemma_step_bounded(s: MatchScore)
    ensures
        0 <= s.spec_value() < 3 ==> s.spec_step().spec_value() == s.spec_value() + 1,
        (s.spec_value() < 0 || s.spec_value() == 3) ==> s.spec_step() == s,
        s.spec_step().spec_value() <= 3,
{
}

impl Default for MatchScore {
    fn default() -> (r: MatchScore)
        ensures
            r == MatchScore::NotStarted,
    {
        MatchScore::NotStarted
    }
}

/// A player's result in a match.
#[derive(Copy, Clone, Debug)]
pub struct PlayerMatchResult {
    pub score: MatchScore,
}

impl Default for PlayerMatchResult {
    fn default() -> (r: PlayerMatchResult)
        ensures
            r.score == MatchScore::NotStarted,
    {
        PlayerMatchResult { score: MatchScore::default() }
    }
}

/// The results of the two duelists after a game that `winner` won.
pub fn record_win(a: &mut PlayerMatchResult, b: &mut PlayerMatchResult, winner: Netplayer)
    ensures
        final(a).score == if winner == Netplayer::Player1 { old(a).score.spec_step() } else { old(a).score },
        final(b).score == if winner == Netplayer::Player2 { old(b).score.spec_step() } else { old(b).score },
{
    match winner {
        Netplayer::Player1 => a.score.step(),
        Netplayer::Player2 => b.score.step(),
        _ => {},
    }
}

/// The results of the two duelists after the player at `position` left.
pub fn record_drop(a: &mut PlayerMatchResult, b: &mut PlayerMatchResult, position: Netplayer)
    ensures
        final(a).score == if position == Netplayer::Player1 { MatchScore::Dropped } else { old(a).score },
        final(b).score == if position == Netplayer::Player2 { MatchScore::Dropped } else { old(b).score },
{
    match position {
        Netplayer::Player1 => a.score = MatchScore::Dropped,
        Netplayer::Player2 => b.score = MatchScore::Dropped,
        _ => {},
    }
}

/// Whether the engine's start message makes its receiver go first.
pub fn goes_first(start_type: u8) -> (r: bool)
    ensures
        r == (start_type & 0xf != 0),
{
    start_type & 0xf > 0
}

/// The plugin's configuration.
#[derive(Clone, Debug)]
pub struct Configuration {
    pub report_endpoint: String,
    pub access_key: String,
    pub arena: String,
}

/// A lower-case hexadecimal digit.
pub open spec fn lower_hex(d: u8) -> char {
    if d < 10 { (48 + d) as char } else { (87 + d) as char }
}

/// One character inside a JSON string: a quote and a backslash after a
/// backslash, the control characters with short escapes after a backslash,
/// other control characters as `\u00` and two hexadecimal digits, and every
/// other character as it is.
pub open spec fn json_char(c: char) -> Seq<char> {
    let v = c as u32;
    if c == '"' {
        seq!['\\', '"']
    } else if c == '\\' {
        seq!['\\', '\\']
    } else if v == 8 {
        seq!['\\', 'b']
    } else if v == 9 {
        seq!['\\', 't']
    } else if v == 10 {
        seq!['\\', 'n']
    } else if v == 12 {
        seq!['\\', 'f']
    } else if v == 13 {
        seq!['\\', 'r']
    } else if v < 0x20 {
        seq!['\\', 'u', '0', '0', lower_hex((v / 16) as u8), lower_hex((v % 16) as u8)]
    } else {
        seq![c]
    }
}

/// A text as a JSON string, between quotes.
pub open spec fn json_string(s: Seq<char>) -> Seq<char> {
    seq!['"'] + json_chars(s) + seq!['"']
}

/// The characters of a text as they stand inside a JSON string.
pub open spec fn json_chars(s: Seq<char>) -> Seq<char>
    decreases s.len(),
{
    if s.len() == 0 { Seq::empty() } else { json_chars(s.drop_last()) + json_char(s.last()) }
}

/// JSON strings separated by commas.
pub open spec fn json_items(items: Seq<Seq<char>>) -> Seq<char>
    decreases items.len(),
{
    if items.len() == 0 {
        Seq::empty()
    } else if items.len() == 1 {
        json_string(items[0])
    } else {
        json_items(items.drop_last()) + seq![','] + json_string(items.last())
    }
}

/// A list of strings written as compact JSON: in brackets, each a JSON
/// string, separated by commas.
pub open spec fn json_strings(items: Seq<Seq<char>>) -> Seq<char> {
    seq!['['] + json_items(items) + seq![']']
}

/// Writes a list of strings as JSON with `serde_json::to_string`, which
/// writes compact JSON and does not fail on strings: a bracket, each string
/// between quotes with `"`, `\\` and the control characters escaped, commas
/// between them, and a closing bracket.
#[verifier::external_body]
fn strings_to_json(items: &Vec<String>) -> (r: Option<String>)
    ensures
        r is Some,
        r->0@ == json_strings(items@.map_values(|item: String| item@)),
{
    serde_json::to_string(items).ok()
}

/// The result of a match, to be reported.
#[derive(Clone, Debug)]
pub struct MatchResultReport {
    pub access_key: String,
    pub user_a_name: String,
    pub user_b_name: String,
    pub user_a_score: MatchScore,
    pub user_b_score: MatchScore,
    pub user_a_deck: Deck,
    pub user_b_deck: Deck,
    pub first: Vec<String>,
    pub replays: Vec<String>,
    pub start: i64,
    pub end: i64,
    pub arena: String,
}

pub open spec fn form_view(v: Seq<(&'static str, String)>) -> Seq<(Seq<char>, Seq<char>)> {
    v.map_values(|p: (&'static str, String)| (p.0@, p.1@))
}

fn decimal_string(n: i64) -> (r: String)
    ensures
        r@ == signed_decimal(n as int),
{
    let mut out: Vec<char> = Vec::new();
    push_signed_decimal(&mut out, n);
    assert(out@ =~= signed_decimal(n as int));
    string_of(out.as_slice())
}

impl MatchResultReport {
    /// The report as form fields: the players first go as a JSON list, `[]`
    /// where it cannot be written; the replays go empty.
    pub fn to_form(self) -> (r: Vec<(&'static str, String)>)
        ensures
            form_view(r@) == seq![
                ("accessKey"@, self.access_key@),
                ("usernameA"@, self.user_a_name@),
                ("usernameB"@, self.user_b_name@),
                ("userscoreA"@, signed_decimal(self.user_a_score.spec_value() as int)),
                ("userscoreB"@, signed_decimal(self.user_b_score.spec_value() as int)),
                ("userdeckA"@, deck_text(self.user_a_deck@)),
                ("userdeckB"@, deck_text(self.user_b_deck@)),
                ("first"@, json_strings(self.first@.map_values(|s: String| s@))),
                ("replays"@, ""@),
                ("start"@, signed_decimal(self.start as int)),
                ("end"@, signed_decimal(self.end as int)),
                ("arena"@, self.arena@)
            ],
    {
        let ghost this = self;
        let first = strings_to_json(&self.first).unwrap();
        let deck_a = self.user_a_deck.to_string();
        let deck_b = self.user_b_deck.to_string();
        let mut r: Vec<(&'static str, String)> = Vec::new();
        r.push(("accessKey", self.access_key));
        r.push(("usernameA", self.user_a_name));
        r.push(("usernameB", self.user_b_name));
        r.push(("userscoreA", decimal_string(self.user_a_score.into_i8() as i64)));
        r.push(("userscoreB", decimal_string(self.user_b_score.into_i8() as i64)));
        r.push(("userdeckA", deck_a));
        r.push(("userdeckB", deck_b));
        r.push(("first", first));
        r.push(("replays", "".to_owned()));
        r.push(("start", decimal_string(self.start)));
        r.push(("end", decimal_string(self.end)));
        r.push(("arena", self.arena));
        assert(form_view(r@) =~= seq![
            ("accessKey"@, this.access_key@),
            ("usernameA"@, this.user_a_name@),
            ("usernameB"@, this.user_b_name@),
            ("userscoreA"@, signed_decimal(this.user_a_score.spec_value() as int)),
            ("userscoreB"@, signed_decimal(this.user_b_score.spec_value() as int)),
            ("userdeckA"@, deck_text(this.user_a_deck@)),
            ("userdeckB"@, deck_text(this.user_b_deck@)),
            ("first"@, json_strings(this.first@.map_values(|s: String| s@))),
            ("replays"@, ""@),
            ("start"@, signed_decimal(this.start as int)),
            ("end"@, signed_decimal(this.end as int)),
            ("arena"@, this.arena@)
        ]);
        r
    }
}

} // verus!
