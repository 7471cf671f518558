//! Reading a configuration of srvpro, the server that srvpru replaces: which
//! of its modules becomes which plugin, and with which configuration.
use std::collections::HashMap;

use vstd::prelude::*;

use crate::srvpru::config::Configuration;
use crate::srvpru::plugins::{
    arena, deck_report, dialogue, heartbeat, max_rooms_count, mc_login, newspeak, reconnect,
    result_report, tip, welcome, windbot,
};
use crate::srvpru::processor::opt_view;
use crate::text::{
    chars_of, decimal, push_decimal, push_str, replace_all, replace_chars, string_of,
};
use crate::ygopro::message::HostInfo;

verus! {

/// The modules of a srvpro configuration that srvpru reads.
#[derive(Copy, Clone, Debug, PartialEq, Eq, Structural)]
pub enum SrvproModule {
    Stop,
    Welcome,
    MaxRoomsCount,
    SideTimeout,
    ReplayDelay,
    HideName,
    DisplayWatchers,
    Tips,
    Dialogues,
    RandomDuel,
    CloudReplay,
    Windbot,
    Reconnect,
    HeartbeatDetection,
    Mycard,
    DeckLog,
    BigBrother,
    ArenaMode,
    Update,
    WaitUpdate,
    Full,
    I18n,
    /// A module that srvpru does not read.
    Unsupported,
}

/// The module that a name stands for.
pub open spec fn spec_module_kind(name: Seq<char>) -> SrvproModule {
    if name == "stop"@ { SrvproModule::Stop }
    else if name == "welcome"@ { SrvproModule::Welcome }
    else if name == "max_rooms_count"@ { SrvproModule::MaxRoomsCount }
    else if name == "side_timeout"@ { SrvproModule::SideTimeout }
    else if name == "replay_deplay"@ { SrvproModule::ReplayDelay }
    else if name == "hide_name"@ { SrvproModule::HideName }
    else if name == "display_watchers"@ { SrvproModule::DisplayWatchers }
    else if name == "tips"@ { SrvproModule::Tips }
    else if name == "dialogues"@ { SrvproModule::Dialogues }
    else if name == "random_duel"@ { SrvproModule::RandomDuel }
    else if name == "cloud_replay"@ { SrvproModule::CloudReplay }
    else if name == "windbot"@ { SrvproModule::Windbot }
    else if name == "reconnect"@ { SrvproModule::Reconnect }
    else if name == "heartbeat_detection"@ { SrvproModule::HeartbeatDetection }
    else if name == "mycard"@ { SrvproModule::Mycard }
    else if name == "deck_log"@ { SrvproModule::DeckLog }
    else if name == "big_brother"@ { SrvproModule::BigBrother }
    else if name == "arena_mode"@ { SrvproModule::ArenaMode }
    else if name == "update"@ { SrvproModule::Update }
    else if name == "wait_update"@ { SrvproModule::WaitUpdate }
    else if name == "full"@ { SrvproModule::Full }
    else if name == "i18n"@ { SrvproModule::I18n }
    else { SrvproModule::Unsupported }
}

pub fn module_kind(name: &str) -> (r: SrvproModule)
    ensures
        r == spec_module_kind(name@),
{
    let n = chars_of(name);
    let s = n.as_slice();
    if crate::text::eq_str(s, "stop") { SrvproModule::Stop }
    else if crate::text::eq_str(s, "welcome") { SrvproModule::Welcome }
    else if crate::text::eq_str(s, "max_rooms_count") { SrvproModule::MaxRoomsCount }
    else if crate::text::eq_str(s, "side_timeout") { SrvproModule::SideTimeout }
    else if crate::text::eq_str(s, "replay_deplay") { SrvproModule::ReplayDelay }
    else if crate::text::eq_str(s, "hide_name") { SrvproModule::HideName }
    else if crate::text::eq_str(s, "display_watchers") { SrvproModule::DisplayWatchers }
    else if crate::text::eq_str(s, "tips") { SrvproModule::Tips }
    else if crate::text::eq_str(s, "dialogues") { SrvproModule::Dialogues }
    else if crate::text::eq_str(s, "random_duel") { SrvproModule::RandomDuel }
    else if crate::text::eq_str(s, "cloud_replay") { SrvproModule::CloudReplay }
    else if crate::text::eq_str(s, "windbot") { SrvproModule::Windbot }
    else if crate::text::eq_str(s, "reconnect") { SrvproModule::Reconnect }
    else if crate::text::eq_str(s, "heartbeat_detection") { SrvproModule::HeartbeatDetection }
    else if crate::text::eq_str(s, "mycard") { SrvproModule::Mycard }
    else if crate::text::eq_str(s, "deck_log") { SrvproModule::DeckLog }
    else if crate::text::eq_str(s, "big_brother") { SrvproModule::BigBrother }
    else if crate::text::eq_str(s, "arena_mode") { SrvproModule::ArenaMode }
    else if crate::text::eq_str(s, "update") { SrvproModule::Update }
    else if crate::text::eq_str(s, "wait_update") { SrvproModule::WaitUpdate }
    else if crate::text::eq_str(s, "full") { SrvproModule::Full }
    else if crate::text::eq_str(s, "i18n") { SrvproModule::I18n }
    else { SrvproModule::Unsupported }
}

pub open spec fn names_view(v: Seq<String>) -> Seq<Seq<char>> {
    v.map_values(|s: String| s@)
}

/// Enable a plugin, unless it is enabled already.
pub fn commit_plugin(plugins: &mut Vec<String>, name: &str)
    ensures
        names_view(final(plugins)@) == if names_view(old(plugins)@).contains(name@) {
            names_view(old(plugins)@)
        } else {
            names_view(old(plugins)@).push(name@)
        },
{
    if !crate::srvpru::plugins::plugin_enabled(plugins.as_slice(), name) {
        let ghost prev = plugins@;
        plugins.push(name.to_owned());
        assert(names_view(plugins@) =~= names_view(prev).push(name@));
    }
}

/// The configuration that a migration starts from: the defaults, with the
/// recorders, the chat commands and the HTTP server enabled, and srvpro's
/// configuration of rooms.
pub fn start_configuration(host_info: HostInfo) -> (r: Configuration)
    ensures
        r.port == 7911,
        r.timeout == 90,
        r.ygopro.cwd@ == "./ygopro"@,
        r.ygopro.database@ == "./cards.cdb"@,
        r.ygopro.binary@ == "./ygopro"@,
        r.ygopro.lflist_conf@ == "./ygopro/lflist.conf"@,
        r.ygopro.address@ == "127.0.0.1"@,
        r.ygopro.wait_start == 0,
        r.ygopro.host_info@ == host_info@,
        names_view(r.plugins@) == seq!["player"@, "room"@, "position_recorder"@, "deck_recorder"@, "stage_recorder"@, "chat_command"@, "api"@],
        r.stoc_handlers@.len() == 0 && r.ctos_handlers@.len() == 0 && r.internal_handlers@.len() == 0,
{
    let mut c = Configuration::default();
    let ghost start = names_view(c.plugins@);
    c.plugins.push("position_recorder".to_owned());
    assert(names_view(c.plugins@) =~= start.push("position_recorder"@));
    c.plugins.push("deck_recorder".to_owned());
    assert(names_view(c.plugins@) =~= start.push("position_recorder"@).push("deck_recorder"@));
    c.plugins.push("stage_recorder".to_owned());
    assert(names_view(c.plugins@) =~= start.push("position_recorder"@).push("deck_recorder"@).push("stage_recorder"@));
    c.plugins.push("chat_command".to_owned());
    assert(names_view(c.plugins@) =~= start.push("position_recorder"@).push("deck_recorder"@).push("stage_recorder"@).push("chat_command"@));
    c.plugins.push("api".to_owned());
    assert(names_view(c.plugins@) =~= start.push("position_recorder"@).push("deck_recorder"@).push("stage_recorder"@).push("chat_command"@).push("api"@));
    c.ygopro.host_info = host_info;
    assert(names_view(c.plugins@) =~= seq!["player"@, "room"@, "position_recorder"@, "deck_recorder"@, "stage_recorder"@, "chat_command"@, "api"@]);
    c
}

/// The welcome plugin greets with srvpro's welcome.
pub fn fit_welcome(message: String) -> (r: welcome::Configuration)
    ensures
        r.welcome_message@ == message@,
{
    welcome::Configuration { welcome_message: message }
}

/// A limit of rooms is kept where there is one.
pub fn fit_max_rooms_count(max_rooms_count: usize) -> (r: Option<max_rooms_count::Configuration>)
    ensures
        max_rooms_count == 0 ==> r is None,
        max_rooms_count > 0 ==> (r matches Some(c) && c.max_rooms_count == max_rooms_count),
{
    if max_rooms_count > 0 { Some(max_rooms_count::Configuration { max_rooms_count }) } else { None }
}

/// What the srvpro modules set of the must-start plugin: later settings of
/// a field replace earlier ones.
#[derive(Clone, Debug)]
pub struct MustStartPatch {
    pub start_game: Option<Vec<u64>>,
    /// The minutes of siding, as the number was written.
    pub change_side: Option<String>,
}

impl MustStartPatch {
    pub fn new() -> (r: MustStartPatch)
        ensures
            r.start_game is None,
            r.change_side is None,
    {
        MustStartPatch { start_game: None, change_side: None }
    }

    pub fn set_start_game(&mut self, seconds: u64)
        ensures
            final(self).start_game matches Some(v) && v@ == seq![seconds],
            final(self).change_side == old(self).change_side,
    {
        let mut v: Vec<u64> = Vec::new();
        v.push(seconds);
        assert(v@ =~= seq![seconds]);
        self.start_game = Some(v);
    }

    pub fn set_change_side(&mut self, minutes: String)
        ensures
            final(self).change_side matches Some(m) && m@ == minutes@,
            final(self).start_game == old(self).start_game,
    {
        self.change_side = Some(minutes);
    }
}

/// The tips module of srvpro; its tips were downloaded from where it says.
#[derive(Clone, Debug)]
pub struct TipsConfig {
    pub enabled: bool,
    pub interval: u64,
    pub interval_ingame: u64,
}

/// The tip plugin sends the downloaded tips at srvpro's intervals.
pub fn fit_tips(config: &TipsConfig, tips: Vec<String>) -> (r: Option<tip::Configuration>)
    ensures
        !config.enabled ==> r is None,
        config.enabled ==> (r matches Some(c) && c.tips@ == tips@ && c.interval_when_prepare == config.interval
            && c.interval_when_in_game == config.interval_ingame),
{
    if !config.enabled {
        return None;
    }
    Some(tip::Configuration { tips, interval_when_prepare: config.interval, interval_when_in_game: config.interval_ingame })
}

/// The dialogue plugin shows the downloaded dialogues.
pub fn fit_dialogues(enabled: bool, dialogues: HashMap<u32, Vec<String>>) -> (r: Option<dialogue::Configuration>)
    ensures
        !enabled ==> r is None,
        enabled ==> (r matches Some(c) && c.dialogues@ == dialogues@),
{
    if !enabled {
        return None;
    }
    Some(dialogue::Configuration { dialogues })
}

/// The random-duel module of srvpro.
#[derive(Clone, Debug)]
pub struct RandomDuelConfig {
    pub enabled: bool,
    pub default_type: String,
    pub no_rematch_check: bool,
    pub record_match_scores: bool,
    pub post_match_scores: bool,
    pub ready_time: u64,
    pub hang_timeout: u64,
}

/// What the random-match plugin is configured with.
#[derive(Clone, Debug)]
pub struct RandomMatchPatch {
    pub default_mode: String,
    pub no_rematch: bool,
}

/// Random matches keep srvpro's mode and rematch check; a time to get ready
/// or to hang makes the host start in time.
pub fn fit_random_duel(config: &RandomDuelConfig) -> (r: (Option<RandomMatchPatch>, Option<u64>))
    ensures
        !config.enabled ==> r.0 is None && r.1 is None,
        config.enabled ==> (r.0 matches Some(p) && p.default_mode@ == config.default_type@ && p.no_rematch == config.no_rematch_check),
        config.enabled && (config.ready_time > 0 || config.hang_timeout > 0) ==> r.1 == Some(config.ready_time),
        config.enabled && !(config.ready_time > 0 || config.hang_timeout > 0) ==> r.1 is None,
{
    if !config.enabled {
        return (None, None);
    }
    let patch = RandomMatchPatch { default_mode: config.default_type.clone(), no_rematch: config.no_rematch_check };
    let start = if config.ready_time > 0 || config.hang_timeout > 0 { Some(config.ready_time) } else { None };
    (Some(patch), start)
}

/// Watching half-way through a duel takes the telescreen.
pub fn fit_cloud_replay(enabled_halfway_watch: Option<bool>) -> (r: bool)
    ensures
        r == (enabled_halfway_watch == Some(true)),
{
    match enabled_halfway_watch {
        Some(b) => b,
        None => false,
    }
}

/// The windbot module of srvpro.
#[derive(Clone, Debug)]
pub struct WindbotConfig {
    pub enabled: bool,
    pub botlist: String,
    pub spawn: bool,
    pub port: u32,
    pub server_ip: String,
    pub my_ip: String,
}

/// The windbot plugin asks srvpro's bot server, and starts it where srvpro
/// did; bots are listed anew.
pub fn fit_windbot(config: &WindbotConfig) -> (r: Option<windbot::Configuration>)
    ensures
        !config.enabled ==> r is None,
        config.enabled ==> (r matches Some(c)
            && opt_view(c.spawn) == (if config.spawn {
                Some("cd windbot && mono ./WindBot.exe ServerMode=true ServerPort="@ + decimal(config.port as nat))
            } else {
                None
            })
            && c.server@ == "http://"@ + config.server_ip@ + ":"@ + decimal(config.port as nat)
            && c.bots@.len() == 0),
{
    if !config.enabled {
        return None;
    }
    let spawn = if config.spawn {
        let mut s: Vec<char> = Vec::new();
        push_str(&mut s, "cd windbot && mono ./WindBot.exe ServerMode=true ServerPort=");
        push_decimal(&mut s, config.port as u64);
        Some(string_of(s.as_slice()))
    } else {
        None
    };
    let mut server: Vec<char> = Vec::new();
    push_str(&mut server, "http://");
    push_str(&mut server, config.server_ip.as_str());
    push_str(&mut server, ":");
    push_decimal(&mut server, config.port as u64);
    Some(windbot::Configuration { spawn, server: string_of(server.as_slice()), bots: Vec::new() })
}

/// The reconnect module of srvpro.
#[derive(Clone, Debug)]
pub struct ReconnectConfig {
    pub enabled: bool,
    pub auto_surrender_after_disconnect: bool,
    pub allow_kick_reconnect: bool,
    pub wait_time: u64,
}

pub fn fit_reconnect(config: &ReconnectConfig) -> (r: Option<reconnect::Configuration>)
    ensures
        !config.enabled ==> r is None,
        config.enabled ==> (r matches Some(c) && c.timeout == config.wait_time && c.can_reconnect_by_kick == config.allow_kick_reconnect),
{
    if !config.enabled {
        return None;
    }
    Some(reconnect::Configuration { timeout: config.wait_time, can_reconnect_by_kick: config.allow_kick_reconnect })
}

/// The heartbeat module of srvpro: a beat every `interval` seconds.
#[derive(Clone, Debug)]
pub struct HeartbeatConfig {
    pub enabled: bool,
    pub interval: u64,
    pub wait_time: u64,
}

pub fn fit_heartbeat(config: &HeartbeatConfig) -> (r: Option<heartbeat::Configuration>)
    requires
        config.enabled ==> config.interval > 0,
    ensures
        !config.enabled ==> r is None,
        config.enabled ==> (r matches Some(c) && c.beat_per_minute == 60u64 / config.interval && c.diastole_time == config.wait_time),
{
    if !config.enabled {
        return None;
    }
    Some(heartbeat::Configuration { beat_per_minute: 60 / config.interval, diastole_time: config.wait_time })
}

/// The MyCard module of srvpro.
#[derive(Clone, Debug)]
pub struct MycardConfig {
    pub enabled: bool,
    pub auth_base_url: String,
    pub auth_database: String,
    pub ban_get: String,
    pub auth_key: String,
}

pub fn fit_mycard(config: &MycardConfig) -> (r: Option<mc_login::Configuration>)
    ensures
        !config.enabled ==> r is None,
        config.enabled ==> (r matches Some(c) && c.auth_base_url@ == config.auth_base_url@
            && c.auth_access_key@ == config.auth_key@ && c.permit_url is None && c.arena is None),
{
    if !config.enabled {
        return None;
    }
    Some(mc_login::Configuration {
        auth_base_url: config.auth_base_url.clone(),
        auth_access_key: config.auth_key.clone(),
        permit_url: None,
        arena: None,
    })
}

/// The deck-log module of srvpro; `post` is where decks go, where it says.
#[derive(Clone, Debug)]
pub struct DeckLogConfig {
    pub enabled: bool,
    pub accesskey: String,
    pub post: Option<String>,
    pub arena: String,
}

pub fn fit_deck_log(config: &DeckLogConfig) -> (r: Option<deck_report::Configuration>)
    ensures
        !(config.enabled && config.post is Some) ==> r is None,
        config.enabled && config.post is Some ==> (r matches Some(c) && c.endpoint@ == config.post.unwrap()@
            && c.access_key@ == config.accesskey@ && c.arena@ == config.arena@),
{
    if !config.enabled {
        return None;
    }
    match &config.post {
        Some(endpoint) => Some(deck_report::Configuration {
            endpoint: endpoint.clone(),
            access_key: config.accesskey.clone(),
            arena: config.arena.clone(),
        }),
        None => None,
    }
}

/// The bad words of srvpro, by level.
#[derive(Clone, Debug)]
pub struct BadWordsConfig {
    pub level0: Vec<String>,
    pub level1: Vec<String>,
    pub level2: Vec<String>,
    pub level3: Vec<String>,
}

/// The big-brother module of srvpro.
#[derive(Clone, Debug)]
pub struct BigBrotherConfig {
    pub enabled: bool,
    pub accesskey: String,
    pub post: String,
}

/// Bad words of level 0 are only reported, of level 1 blocked, of level 2
/// replaced and of level 3 silenced; without the bad words nothing is
/// enabled.
pub fn fit_big_brother(config: &BigBrotherConfig, bad_words: Option<BadWordsConfig>) -> (r: Option<newspeak::Configuration>)
    ensures
        !(config.enabled && bad_words is Some) ==> r is None,
        config.enabled && bad_words is Some ==> (r matches Some(c) && {
            let w = bad_words.unwrap();
            &&& c.bad_words@.len() == 4
            &&& c.bad_words@[0]@ == w.level0@ && c.bad_words@[1]@ == w.level1@
            &&& c.bad_words@[2]@ == w.level2@ && c.bad_words@[3]@ == w.level3@
            &&& c.behavior@ == seq![newspeak::BadwordBehavior::Nothing, newspeak::BadwordBehavior::Block,
                newspeak::BadwordBehavior::Replace, newspeak::BadwordBehavior::Silent]
            &&& c.report_to_big_brother@ == config.post@
            &&& c.big_brother_access_key@ == config.accesskey@
        }),
{
    if !config.enabled {
        return None;
    }
    let w = match bad_words {
        Some(w) => w,
        None => return None,
    };
    let mut groups: Vec<Vec<String>> = Vec::new();
    groups.push(w.level0);
    groups.push(w.level1);
    groups.push(w.level2);
    groups.push(w.level3);
    let mut behavior: Vec<newspeak::BadwordBehavior> = Vec::new();
    behavior.push(newspeak::BadwordBehavior::Nothing);
    behavior.push(newspeak::BadwordBehavior::Block);
    behavior.push(newspeak::BadwordBehavior::Replace);
    behavior.push(newspeak::BadwordBehavior::Silent);
    assert(behavior@ =~= seq![newspeak::BadwordBehavior::Nothing, newspeak::BadwordBehavior::Block,
        newspeak::BadwordBehavior::Replace, newspeak::BadwordBehavior::Silent]);
    Some(newspeak::Configuration {
        bad_words: groups,
        behavior,
        report_to_big_brother: config.post.clone(),
        big_brother_access_key: config.accesskey.clone(),
    })
}

/// The arena module of srvpro. `None` stands for a link that srvpro leaves
/// off.
#[derive(Clone, Debug)]
pub struct ArenaModeConfig {
    pub enabled: bool,
    pub mode: String,
    pub accesskey: String,
    pub ready_time: u64,
    pub check_permit: Option<String>,
    pub post_score: Option<String>,
    pub get_score: Option<String>,
    pub punish_quit_before_match: bool,
    /// Where the arena is announced, where srvpro announces it.
    pub init_post_url: Option<String>,
}

/// What the arena module sets: results are reported where scores were
/// posted; the arena plugin asks srvpro's links, the score link without its
/// `?username=`; and the host must start in the time to get ready.
pub fn fit_arena_mode(config: &ArenaModeConfig) -> (r: (Option<result_report::Configuration>, Option<arena::Configuration>, Option<u64>))
    ensures
        !config.enabled ==> r.0 is None && r.1 is None && r.2 is None,
        config.enabled && config.post_score is None ==> r.0 is None,
        config.enabled && config.post_score is Some ==> (r.0 matches Some(c)
            && c.report_endpoint@ == config.post_score.unwrap()@ && c.access_key@ == config.accesskey@ && c.arena@ == config.mode@),
        config.enabled ==> (r.1 matches Some(a) && a.arena@ == config.mode@ && opt_view(a.init) == opt_view(config.init_post_url)
            && opt_view(a.permit) == opt_view(config.check_permit)
            && opt_view(a.get_score) == match config.get_score {
                Some(g) => Some(replace_all(g@, "?username="@, ""@)),
                None => None,
            }
            && a.access_key@ == config.accesskey@),
        config.enabled ==> r.2 == Some(config.ready_time),
{
    if !config.enabled {
        return (None, None, None);
    }
    let report = match &config.post_score {
        Some(endpoint) => Some(result_report::Configuration {
            report_endpoint: endpoint.clone(),
            access_key: config.accesskey.clone(),
            arena: config.mode.clone(),
        }),
        None => None,
    };
    let get_score = match &config.get_score {
        Some(g) => {
            let cs = chars_of(g.as_str());
            let pat = chars_of("?username=");
            let empty: Vec<char> = Vec::new();
            let replaced = replace_chars(cs.as_slice(), pat.as_slice(), empty.as_slice());
            assert(empty@ =~= ""@) by { reveal_strlit(""); }
            Some(string_of(replaced.as_slice()))
        },
        None => None,
    };
    let arena_config = arena::Configuration {
        arena: config.mode.clone(),
        init: match &config.init_post_url { Some(u) => Some(u.clone()), None => None },
        permit: match &config.check_permit { Some(u) => Some(u.clone()), None => None },
        get_score,
        access_key: config.accesskey.clone(),
    };
    (report, Some(arena_config), Some(config.ready_time))
}

} // verus!
