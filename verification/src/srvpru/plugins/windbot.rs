//! Bots to duel against.
use vstd::prelude::*;

use crate::srvpru::plugins::PluginError;

use crate::srvpru::processor::{
    fresh_handler, spec_register_for_plugin, Handler, HandlerCondition, HandlerOccasion, Registry,
    RegistryView,
};
use crate::ygopro::message::{ctos, srvpru, MessageType};
use crate::srvpru::plugins::choose_one;
use crate::text::{
    chars_from, chars_of, decimal, push_decimal, push_str, starts_with, starts_with_str, string_of,
    trim, trim_chars,
};

verus! {

/// The registry after the plugin loaded its configuration and registered
/// its handlers; unchanged where its configuration was already
/// loaded, as a plugin starts once.
pub open spec fn spec_init(r: RegistryView) -> RegistryView {
    if r.configured.contains("windbot"@) {
        r
    } else {
        let r0 = RegistryView { configured: r.configured.insert("windbot"@), ..r };
        let r1 = spec_register_for_plugin(r0, fresh_handler(100, "windbot_spawner"@, HandlerOccasion::Before, HandlerCondition::MessageType(MessageType::SRVPRU(srvpru::MessageType::ServerStart))), "windbot"@);
        let r2 = spec_register_for_plugin(r1, fresh_handler(100, "chat_command_ai"@, HandlerOccasion::Before, HandlerCondition::MessageType(MessageType::SRVPRU(srvpru::MessageType::ServerStart))), "windbot"@);
        let r3 = spec_register_for_plugin(r2, fresh_handler(100, "windbot_ai_joiner"@, HandlerOccasion::After, HandlerCondition::MessageType(MessageType::CTOS(ctos::MessageType::JoinGame))), "windbot"@);
        r3
    }
}

/// Register the plugin's handlers with the registry.
pub fn init(registry: &mut Registry) -> (r: Result<(), PluginError>)
    requires
        old(registry).wf(),
    ensures
        final(registry).wf(),
        final(registry)@ == spec_init(old(registry)@),
        r == (if old(registry)@.configured.contains("windbot"@) { Err(PluginError::ConfigurationAlreadySet) } else { Ok(()) }),
{
    if !registry.configure("windbot") {
        return Err(PluginError::ConfigurationAlreadySet);
    }
    Handler::new(100, "windbot_spawner", HandlerOccasion::Before, HandlerCondition::MessageType(MessageType::SRVPRU(srvpru::MessageType::ServerStart))).register_for_plugin("windbot", registry);
    Handler::new(100, "chat_command_ai", HandlerOccasion::Before, HandlerCondition::MessageType(MessageType::SRVPRU(srvpru::MessageType::ServerStart))).register_for_plugin("windbot", registry);
    Handler::new(100, "windbot_ai_joiner", HandlerOccasion::After, HandlerCondition::MessageType(MessageType::CTOS(ctos::MessageType::JoinGame))).register_for_plugin("windbot", registry);
    Ok(())
}


/// A bot that can join a room.
#[derive(Debug)]
pub struct Bot {
    pub name: String,
    pub deck: String,
    pub dialog: String,
    /// A hidden bot only comes when asked for by name.
    pub hidden: bool,
}

pub struct BotView {
    pub name: Seq<char>,
    pub deck: Seq<char>,
    pub dialog: Seq<char>,
    pub hidden: bool,
}

impl View for Bot {
    type V = BotView;

    open spec fn view(&self) -> BotView {
        BotView { name: self.name@, deck: self.deck@, dialog: self.dialog@, hidden: self.hidden }
    }
}

impl Bot {
    pub fn duplicate(&self) -> (r: Bot)
        ensures
            r@ == self@,
    {
        Bot { name: self.name.clone(), deck: self.deck.clone(), dialog: self.dialog.clone(), hidden: self.hidden }
    }
}

/// The plugin's configuration.
#[derive(Debug)]
pub struct Configuration {
    /// A program to start with the server, if any.
    pub spawn: Option<String>,
    /// Where bots are asked for.
    pub server: String,
    pub bots: Vec<Bot>,
}

pub open spec fn bot_views(bots: Seq<Bot>) -> Seq<BotView> {
    bots.map_values(|b: Bot| b@)
}

/// The bots that may come when `name` asks: those of that name where a name
/// is given, else those that are not hidden.
pub open spec fn fits(name: Option<Seq<char>>, b: BotView) -> bool {
    match name {
        Some(n) => if n.len() > 0 { b.name == n } else { !b.hidden },
        None => !b.hidden,
    }
}

pub open spec fn candidates(bots: Seq<BotView>, name: Option<Seq<char>>) -> Seq<BotView> {
    bots.filter(|b: BotView| fits(name, b))
}

fn collect_candidates(bots: &[Bot], name: Option<&str>) -> (r: Vec<Bot>)
    ensures
        bot_views(r@) == candidates(bot_views(bots@), match name { Some(n) => Some(n@), None => None }),
{
    let ghost bv = bot_views(bots@);
    let ghost n = match name { Some(n) => Some(n@), None => None::<Seq<char>> };
    let key: Option<String> = match name {
        Some(n) => if n.unicode_len() > 0 { Some(n.to_owned()) } else { None },
        None => None,
    };
    let ghost pred = |b: BotView| fits(n, b);
    let mut out: Vec<Bot> = Vec::new();
    let mut i: usize = 0;
    while i < bots.len()
        invariant
            bv == bot_views(bots@),
            i <= bots@.len(),
            bot_views(out@) == bv.take(i as int).filter(pred),
            match key { Some(k) => n == Some(k@) && k@.len() > 0, None => !(n matches Some(x) && x.len() > 0) },
            pred == (|b: BotView| fits(n, b)),
        decreases bots@.len() - i,
    {
        proof {
            assert(bv.take(i + 1).drop_last() =~= bv.take(i as int));
            assert(bv.take(i + 1).last() == bots@[i as int]@);
            Seq::lemma_filter_push(bv.take(i as int), bots@[i as int]@, pred);
        }
        let keep = match &key {
            Some(k) => bots[i].name == *k,
            None => !bots[i].hidden,
        };
        let ghost prev = out@;
        assert(keep == pred(bots@[i as int]@));
        assert(bv.take(i + 1) =~= bv.take(i as int).push(bots@[i as int]@));
        if keep {
            out.push(bots[i].duplicate());
            assert(bot_views(out@) =~= bot_views(prev).push(bots@[i as int]@));
        }
        i = i + 1;
    }
    assert(bv.take(i as int) =~= bv);
    out
}

/// A bot chosen at random among those that `name` asks for; none where no
/// bot fits.
pub fn select_a_bot(configuration: &Configuration, name: Option<&str>) -> (r: Option<Bot>)
    ensures
        ({
            let cs = candidates(bot_views(configuration.bots@), match name { Some(n) => Some(n@), None => None });
            &&& r is None <==> cs.len() == 0
            &&& r matches Some(b) ==> cs.contains(b@)
        }),
{
    let cs = collect_candidates(configuration.bots.as_slice(), name);
    match choose_one(cs.as_slice()) {
        None => None,
        Some(b) => {
            proof {
                let i = choose|i: int| 0 <= i < cs@.len() && cs@[i] == *b;
                assert(bot_views(cs@)[i] == b@);
            }
            Some(b.duplicate())
        },
    }
}

/// Whether a room's password asks for a bot: it starts with `AI#`.
pub fn is_ai_room(password: &str) -> (r: bool)
    ensures
        r == starts_with(password@, "AI#"@),
{
    let cs = chars_of(password);
    starts_with_str(cs.as_slice(), "AI#")
}

/// The bot that an `/ai` command names: what follows `/ai`, without white
/// space around it.
pub fn ai_command_bot_name(message: &str) -> (r: String)
    requires
        starts_with(message@, "/ai"@),
    ensures
        r@ == trim(message@.skip(3)),
{
    proof { reveal_strlit("/ai"); }
    let cs = chars_of(message);
    let rest = chars_from(cs.as_slice(), 3);
    let t = trim_chars(rest.as_slice());
    string_of(t.as_slice())
}

/// The request that asks the bot server to send a bot into a room.
pub fn join_url(base_url: &str, bot: &Bot, host: &str, port: u16, version: u16, password: &str) -> (r: String)
    ensures
        r@ == base_url@ + "?name="@ + bot@.name + "&deck="@ + bot@.deck + "&host="@ + host@ + "&port="@
            + decimal(port as nat) + "&version="@ + decimal(version as nat) + "&password="@ + password@,
{
    let mut out: Vec<char> = Vec::new();
    push_str(&mut out, base_url);
    push_str(&mut out, "?name=");
    push_str(&mut out, bot.name.as_str());
    push_str(&mut out, "&deck=");
    push_str(&mut out, bot.deck.as_str());
    push_str(&mut out, "&host=");
    push_str(&mut out, host);
    push_str(&mut out, "&port=");
    push_decimal(&mut out, port as u64);
    push_str(&mut out, "&version=");
    push_decimal(&mut out, version as u64);
    push_str(&mut out, "&password=");
    push_str(&mut out, password);
    string_of(out.as_slice())
}

} // verus!
