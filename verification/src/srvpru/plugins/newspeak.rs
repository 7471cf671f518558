//! Stop sensitive words in chat, player names and room names.
use vstd::prelude::*;

use crate::srvpru::plugins::PluginError;

use crate::srvpru::processor::{
    fresh_handler, spec_register, spec_register_handlers, strs, Handler, HandlerCondition,
    HandlerOccasion, Registry, RegistryView,
};
use crate::ygopro::message::{ctos, stoc, Direction, MessageType};
use crate::text::{
    chars_of, contains_chars, contains_seq, push_signed_decimal, push_str, replace_all,
    replace_chars, signed_decimal, string_of,
};

verus! {

/// The registry after the plugin loaded its configuration and registered
/// its handlers; unchanged where its configuration was already
/// loaded, as a plugin starts once.
pub open spec fn spec_init(r: RegistryView) -> RegistryView {
    if r.configured.contains("newspeak"@) {
        r
    } else {
        let r0 = RegistryView { configured: r.configured.insert("newspeak"@), ..r };
        let r1 = spec_register(r0, fresh_handler(101, "newspeak_chat"@, HandlerOccasion::Before, HandlerCondition::MessageType(MessageType::CTOS(ctos::MessageType::Chat))));
        let r2 = spec_register(r1, fresh_handler(1, "newspeak_player_name"@, HandlerOccasion::Before, HandlerCondition::MessageType(MessageType::CTOS(ctos::MessageType::PlayerInfo))));
        let r3 = spec_register(r2, fresh_handler(5, "newspeak_roomname"@, HandlerOccasion::Before, HandlerCondition::MessageType(MessageType::CTOS(ctos::MessageType::JoinGame))));
        let r4 = spec_register(r3, fresh_handler(1, "newspeak_stoc_player_name"@, HandlerOccasion::Before, HandlerCondition::MessageType(MessageType::STOC(stoc::MessageType::HsPlayerEnter))));
        let r5 = spec_register_handlers(r4, "newspeak"@, Direction::CTOS, seq!["newspeak_chat"@, "newspeak_player_name"@, "newspeak_roomname"@]);
        let r6 = spec_register_handlers(r5, "newspeak"@, Direction::STOC, seq!["newspeak_stoc_player_name"@]);
        r6
    }
}

/// Register the plugin's handlers with the registry.
pub fn init(registry: &mut Registry) -> (r: Result<(), PluginError>)
    requires
        old(registry).wf(),
    ensures
        final(registry).wf(),
        final(registry)@ == spec_init(old(registry)@),
        r == (if old(registry)@.configured.contains("newspeak"@) { Err(PluginError::ConfigurationAlreadySet) } else { Ok(()) }),
{
    if !registry.configure("newspeak") {
        return Err(PluginError::ConfigurationAlreadySet);
    }
    Handler::new(101, "newspeak_chat", HandlerOccasion::Before, HandlerCondition::MessageType(MessageType::CTOS(ctos::MessageType::Chat))).register(registry);
    Handler::new(1, "newspeak_player_name", HandlerOccasion::Before, HandlerCondition::MessageType(MessageType::CTOS(ctos::MessageType::PlayerInfo))).register(registry);
    Handler::new(5, "newspeak_roomname", HandlerOccasion::Before, HandlerCondition::MessageType(MessageType::CTOS(ctos::MessageType::JoinGame))).register(registry);
    Handler::new(1, "newspeak_stoc_player_name", HandlerOccasion::Before, HandlerCondition::MessageType(MessageType::STOC(stoc::MessageType::HsPlayerEnter))).register(registry);
    {
        let mut names: Vec<&str> = Vec::new();
        names.push("newspeak_chat");
        names.push("newspeak_player_name");
        names.push("newspeak_roomname");
        assert(strs(names@) =~= seq!["newspeak_chat"@, "newspeak_player_name"@, "newspeak_roomname"@]);
        Handler::register_handlers("newspeak", Direction::CTOS, names, registry);
    }
    {
        let mut names: Vec<&str> = Vec::new();
        names.push("newspeak_stoc_player_name");
        assert(strs(names@) =~= seq!["newspeak_stoc_player_name"@]);
        Handler::register_handlers("newspeak", Direction::STOC, names, registry);
    }
    Ok(())
}


/// What to do on bad words.
#[derive(Copy, Clone, Debug, PartialEq, Eq, Structural)]
pub enum BadwordBehavior {
    /// Block the message and warn the sender.
    Block,
    /// Replace the bad words with `**` and warn the sender.
    Replace,
    /// Block the message, but the sender sees it as sent.
    Silent,
    /// Do nothing.
    Nothing,
}

/// The plugin's configuration: groups of bad words by level, and what each
/// level does.
#[derive(Clone, Debug)]
pub struct Configuration {
    pub bad_words: Vec<Vec<String>>,
    pub behavior: Vec<BadwordBehavior>,
    pub report_to_big_brother: String,
    pub big_brother_access_key: String,
}

pub open spec fn groups_view(g: Seq<Vec<String>>) -> Seq<Seq<Seq<char>>> {
    g.map_values(|v: Vec<String>| v@.map_values(|s: String| s@))
}

/// One bad word of a level checked against the text: a word found in a
/// blocking level blocks; in a replacing level it becomes `**`. The state is
/// the text, whether a word was found, and whether it blocked.
pub open spec fn group_step(st: (Seq<char>, bool, bool), word: Seq<char>, b: BadwordBehavior) -> (Seq<char>, bool, bool) {
    if st.2 || !contains_seq(st.0, word) {
        st
    } else if b == BadwordBehavior::Block {
        (st.0, true, true)
    } else if b == BadwordBehavior::Replace {
        (replace_all(st.0, word, "**"@), true, false)
    } else {
        (st.0, true, false)
    }
}

/// The words of one level checked in order.
pub open spec fn judge_group(t: Seq<char>, words: Seq<Seq<char>>, b: BadwordBehavior) -> (Seq<char>, bool, bool)
    decreases words.len(),
{
    if words.len() == 0 {
        (t, false, false)
    } else {
        group_step(judge_group(t, words.drop_last(), b), words.last(), b)
    }
}

/// The levels below `n` checked from the highest down: the text after
/// replacements and the level of the text, -1 where no word was found. A
/// blocking level ends the check with its level; otherwise the lowest level
/// with a word found is the text's level.
pub open spec fn judge_levels(t: Seq<char>, groups: Seq<Seq<Seq<char>>>, behavior: Seq<BadwordBehavior>, n: int) -> (Seq<char>, int)
    decreases n,
{
    if n <= 0 {
        (t, -1)
    } else {
        let (t1, m, b) = judge_group(t, groups[n - 1], behavior[n - 1]);
        if b {
            (t1, n - 1)
        } else {
            let (t2, r) = judge_levels(t1, groups, behavior, n - 1);
            (t2, if r >= 0 { r } else if m { n - 1 } else { -1 })
        }
    }
}

proof fn lemma_blocked_stays(t: Seq<char>, words: Seq<Seq<char>>, b: BadwordBehavior, j: int)
    requires
        0 <= j <= words.len(),
        judge_group(t, words.take(j), b).2,
    ensures
        judge_group(t, words, b) == judge_group(t, words.take(j), b),
    decreases words.len() - j,
{
    if j < words.len() {
        assert(words.take(j + 1).drop_last() =~= words.take(j));
        lemma_blocked_stays(t, words, b, j + 1);
    } else {
        assert(words.take(j) =~= words);
    }
}

/// Whether a word of one of the levels below `n` occurs in a text.
pub open spec fn has_bad_word(t: Seq<char>, groups: Seq<Seq<Seq<char>>>, n: int) -> bool {
    exists|l: int, j: int| 0 <= l < n && 0 <= j < groups[l].len() && #[trigger] contains_seq(t, groups[l][j])
}

proof fn lemma_group_found(t: Seq<char>, words: Seq<Seq<char>>, b: BadwordBehavior)
    ensures
        judge_group(t, words, b).2 ==> judge_group(t, words, b).1,
        !judge_group(t, words, b).1 ==> judge_group(t, words, b).0 == t,
        !judge_group(t, words, b).1 ==> forall|j: int| 0 <= j < words.len() ==> !#[trigger] contains_seq(t, words[j]),
        judge_group(t, words, b).1 ==> exists|j: int| 0 <= j < words.len() && #[trigger] contains_seq(t, words[j]),
    decreases words.len(),
{
    if words.len() > 0 {
        let ws = words.drop_last();
        lemma_group_found(t, ws, b);
        let prev = judge_group(t, ws, b);
        let k = words.len() - 1;
        assert forall|j: int| 0 <= j < k implies words[j] == ws[j] by {}
        if prev.1 {
            let j = choose|j: int| 0 <= j < ws.len() && #[trigger] contains_seq(t, ws[j]);
            assert(words[j] == ws[j]);
        } else if contains_seq(prev.0, words.last()) {
            assert(contains_seq(t, words[k]));
        } else {
            assert forall|j: int| 0 <= j < words.len() implies !#[trigger] contains_seq(t, words[j]) by {
                if j < k {
                    assert(words[j] == ws[j]);
                }
            }
        }
    }
}

/// A text gets a level exactly when a word of some level occurs in it,
/// whatever the levels do; the level is one of the levels, and -1 only for
/// a text in which no configured word occurs.
pub proof fn law_level_found_exactly_for_bad_words(t: Seq<char>, groups: Seq<Seq<Seq<char>>>, behavior: Seq<BadwordBehavior>, n: int)
    requires
        0 <= n <= groups.len(),
        n <= behavior.len(),
    ensures
        -1 <= judge_levels(t, groups, behavior, n).1 < n,
        judge_levels(t, groups, behavior, n).1 >= 0 <==> has_bad_word(t, groups, n),
    decreases n,
{
    if n > 0 {
        let g = judge_group(t, groups[n - 1], behavior[n - 1]);
        lemma_group_found(t, groups[n - 1], behavior[n - 1]);
        if g.1 {
            let j = choose|j: int| 0 <= j < groups[n - 1].len() && #[trigger] contains_seq(t, groups[n - 1][j]);
            assert(contains_seq(t, groups[n - 1][j]));
        }
        if !g.2 {
            law_level_found_exactly_for_bad_words(g.0, groups, behavior, n - 1);
            if !g.1 {
                if has_bad_word(t, groups, n) {
                    let (l, j) = choose|l: int, j: int| 0 <= l < n && 0 <= j < groups[l].len() && #[trigger] contains_seq(t, groups[l][j]);
                    assert(l < n - 1);
                    assert(has_bad_word(t, groups, n - 1));
                }
                if has_bad_word(t, groups, n - 1) {
                    let (l, j) = choose|l: int, j: int| 0 <= l < n - 1 && 0 <= j < groups[l].len() && #[trigger] contains_seq(t, groups[l][j]);
                    assert(has_bad_word(t, groups, n));
                }
            }
        }
    }
}

proof fn lemma_group_keeps_text(t: Seq<char>, words: Seq<Seq<char>>, b: BadwordBehavior)
    ensures
        b != BadwordBehavior::Replace ==> judge_group(t, words, b).0 == t,
        b == BadwordBehavior::Block ==> (judge_group(t, words, b).1 ==> judge_group(t, words, b).2),
        b != BadwordBehavior::Block ==> !judge_group(t, words, b).2,
    decreases words.len(),
{
    if words.len() > 0 {
        lemma_group_keeps_text(t, words.drop_last(), b);
    }
}

proof fn lemma_levels_keep_text(t: Seq<char>, groups: Seq<Seq<Seq<char>>>, behavior: Seq<BadwordBehavior>, n: int)
    requires
        0 <= n <= groups.len(),
        n <= behavior.len(),
        forall|l: int| 0 <= l < n ==> behavior[l] != BadwordBehavior::Replace,
    ensures
        judge_levels(t, groups, behavior, n).0 == t,
    decreases n,
{
    if n > 0 {
        lemma_group_keeps_text(t, groups[n - 1], behavior[n - 1]);
        lemma_levels_keep_text(t, groups, behavior, n - 1);
    }
}

/// Only a replacing level changes a text; a blocking level, checked from the
/// highest down, stops the check at the first level whose word occurs, with
/// the text unchanged and that level.
pub proof fn law_newspeak_behaviours(t: Seq<char>, groups: Seq<Seq<Seq<char>>>, behavior: Seq<BadwordBehavior>, n: int)
    requires
        0 <= n <= groups.len(),
        n <= behavior.len(),
    ensures
        (forall|l: int| 0 <= l < n ==> behavior[l] != BadwordBehavior::Replace) ==> judge_levels(t, groups, behavior, n).0 == t,
        (n > 0 && behavior[n - 1] == BadwordBehavior::Block
            && exists|j: int| 0 <= j < groups[n - 1].len() && #[trigger] contains_seq(t, groups[n - 1][j]))
            ==> judge_levels(t, groups, behavior, n) == (t, n - 1),
{
    if forall|l: int| 0 <= l < n ==> behavior[l] != BadwordBehavior::Replace {
        lemma_levels_keep_text(t, groups, behavior, n);
    }
    if n > 0 {
        lemma_group_found(t, groups[n - 1], behavior[n - 1]);
        lemma_group_keeps_text(t, groups[n - 1], behavior[n - 1]);
    }
}

/// Where no level blocks or replaces, a text's level is the lowest level
/// with a word that occurs in it.
pub proof fn law_lowest_level_reported(t: Seq<char>, groups: Seq<Seq<Seq<char>>>, behavior: Seq<BadwordBehavior>, n: int)
    requires
        0 <= n <= groups.len(),
        n <= behavior.len(),
        forall|l: int| 0 <= l < n ==> behavior[l] != BadwordBehavior::Replace && behavior[l] != BadwordBehavior::Block,
    ensures
        judge_levels(t, groups, behavior, n).1 >= 0 ==> {
            let r = judge_levels(t, groups, behavior, n).1;
            &&& exists|j: int| 0 <= j < groups[r].len() && #[trigger] contains_seq(t, groups[r][j])
            &&& !has_bad_word(t, groups, r)
        },
    decreases n,
{
    if n > 0 {
        let g = judge_group(t, groups[n - 1], behavior[n - 1]);
        lemma_group_found(t, groups[n - 1], behavior[n - 1]);
        lemma_group_keeps_text(t, groups[n - 1], behavior[n - 1]);
        law_lowest_level_reported(t, groups, behavior, n - 1);
        law_level_found_exactly_for_bad_words(t, groups, behavior, n - 1);
        assert(!g.2);
        assert(g.0 == t);
        let r1 = judge_levels(t, groups, behavior, n - 1).1;
        if r1 < 0 && g.1 {
            assert(!has_bad_word(t, groups, n - 1));
            assert(judge_levels(t, groups, behavior, n).1 == n - 1);
        }
    }
}

/// Check a text against the bad words, replacing where its level says so.
/// Returns the level of the text, -1 where it holds no bad word.
pub fn judge_bad_word_level(configuration: &Configuration, target: &mut String) -> (r: i8)
    requires
        configuration.behavior@.len() >= configuration.bad_words@.len(),
        configuration.bad_words@.len() <= 128,
    ensures
        (final(target)@, r as int) == judge_levels(old(target)@, groups_view(configuration.bad_words@),
            configuration.behavior@, configuration.bad_words@.len() as int),
{
    let ghost groups = groups_view(configuration.bad_words@);
    let ghost beh = configuration.behavior@;
    let ghost total = judge_levels(old(target)@, groups, beh, configuration.bad_words@.len() as int);
    let mut t = chars_of(target.as_str());
    let mut cur: i8 = -1;
    let mut k: usize = configuration.bad_words.len();
    while k > 0
        invariant
            groups == groups_view(configuration.bad_words@),
            beh == configuration.behavior@,
            beh.len() >= groups.len(),
            groups.len() <= 128,
            k <= groups.len(),
            -1 <= cur < 128,
            total == judge_levels(old(target)@, groups, beh, groups.len() as int),
            total == ({
                let (t2, r) = judge_levels(t@, groups, beh, k as int);
                (t2, if r >= 0 { r } else { cur as int })
            }),
        decreases k,
    {
        let level = k - 1;
        let words = &configuration.bad_words[level];
        let b = configuration.behavior[level];
        let ghost ws = groups[level as int];
        assert(ws == words@.map_values(|s: String| s@));
        let ghost start = t@;
        let mut matched = false;
        let mut j: usize = 0;
        while j < words.len()
            invariant
                ws == words@.map_values(|s: String| s@),
                groups == groups_view(configuration.bad_words@),
                beh == configuration.behavior@,
                beh.len() >= groups.len(),
                groups.len() <= 128,
                0 < k <= groups.len(),
                level == k - 1,
                ws == groups[level as int],
                b == beh[level as int],
                -1 <= cur < 128,
                total == judge_levels(old(target)@, groups, beh, groups.len() as int),
                total == ({
                    let (t2, r) = judge_levels(start, groups, beh, k as int);
                    (t2, if r >= 0 { r } else { cur as int })
                }),
                j <= ws.len(),
                judge_group(start, ws.take(j as int), b) == (t@, matched, false),
            decreases ws.len() - j,
        {
            proof {
                assert(ws.take(j + 1).drop_last() =~= ws.take(j as int));
                assert(ws.take(j + 1).last() == words@[j as int]@);
            }
            let w = chars_of(words[j].as_str());
            if contains_chars(t.as_slice(), w.as_slice()) {
                if b == BadwordBehavior::Block {
                    proof {
                        assert(judge_group(start, ws.take(j + 1), b) == (t@, true, true));
                        lemma_blocked_stays(start, ws, b, j + 1);
                        assert(judge_levels(start, groups, beh, k as int) == (t@, level as int));
                        assert(total == (t@, level as int));
                        assert(level < 128);
                    }
                    let text = string_of(t.as_slice());
                    *target = text;
                    let lv = level as i8;
                    assert(target@ == t@);
                    assert(lv as int == level as int);
                    return lv;
                } else if b == BadwordBehavior::Replace {
                    let stars = chars_of("**");
                    t = replace_chars(t.as_slice(), w.as_slice(), stars.as_slice());
                }
                matched = true;
            }
            j = j + 1;
        }
        assert(ws.take(j as int) =~= ws);
        if matched {
            cur = level as i8;
        }
        k = k - 1;
    }
    *target = string_of(t.as_slice());
    cur
}

/// What a level does: its behaviour, where the text has a level.
pub fn behavior_of(configuration: &Configuration, level: i8) -> (r: Option<BadwordBehavior>)
    requires
        level < configuration.behavior@.len(),
    ensures
        level < 0 ==> r is None,
        level >= 0 ==> r == Some(configuration.behavior@[level as int]),
{
    if level < 0 {
        None
    } else {
        Some(configuration.behavior[level as usize])
    }
}

/// A placeholder that names a level: `{`, the prefix, the level, `}`.
pub open spec fn level_placeholder(prefix: Seq<char>, level: i8) -> Seq<char> {
    seq!['{'] + prefix + signed_decimal(level as int) + seq!['}']
}

fn placeholder(prefix: &str, level: i8) -> (r: String)
    ensures
        r@ == level_placeholder(prefix@, level),
{
    let mut out: Vec<char> = Vec::new();
    out.push('{');
    push_str(&mut out, prefix);
    push_signed_decimal(&mut out, level as i64);
    out.push('}');
    let ghost x = out@;
    assert(x =~= level_placeholder(prefix@, level));
    string_of(out.as_slice())
}

/// The warning to a player who sent bad words.
pub fn chat_warning(level: i8) -> (r: String)
    ensures
        r@ == level_placeholder("chat_warn_level"@, level),
{
    placeholder("chat_warn_level", level)
}

/// Why a player's name is refused.
pub fn bad_name_message(level: i8) -> (r: String)
    ensures
        r@ == level_placeholder("bad_name_level"@, level),
{
    placeholder("bad_name_level", level)
}

/// Why a room's name is refused.
pub fn bad_room_message(level: i8) -> (r: String)
    ensures
        r@ == level_placeholder("bad_room_level"@, level),
{
    placeholder("bad_room_level", level)
}

} // verus!
