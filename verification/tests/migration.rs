use srvpru::srvpro::{
    commit_plugin, fit_arena_mode, fit_big_brother, fit_heartbeat, fit_max_rooms_count, fit_random_duel, fit_windbot,
    module_kind, start_configuration, ArenaModeConfig, BadWordsConfig, BigBrotherConfig, HeartbeatConfig, MustStartPatch,
    RandomDuelConfig, SrvproModule, WindbotConfig,
};
use srvpru::srvpru::plugins::newspeak::BadwordBehavior;
use srvpru::ygopro::message::HostInfo;

#[test]
fn module_names() {
    assert_eq!(module_kind("replay_deplay"), SrvproModule::ReplayDelay);
    assert_eq!(module_kind("heartbeat_detection"), SrvproModule::HeartbeatDetection);
    assert_eq!(module_kind("mysql"), SrvproModule::Unsupported);
}

#[test]
fn starting_configuration() {
    let c = start_configuration(HostInfo::new());
    assert_eq!(c.plugins, vec!["player", "room", "position_recorder", "deck_recorder", "stage_recorder", "chat_command", "api"]);
    let mut plugins = c.plugins.clone();
    commit_plugin(&mut plugins, "api");
    commit_plugin(&mut plugins, "tip");
    assert_eq!(plugins.len(), 8);
    assert_eq!(plugins[7], "tip");
}

#[test]
fn module_configurations() {
    assert!(fit_max_rooms_count(0).is_none());
    assert_eq!(fit_max_rooms_count(3).unwrap().max_rooms_count, 3);
    let hb = fit_heartbeat(&HeartbeatConfig { enabled: true, interval: 20, wait_time: 9 }).unwrap();
    assert_eq!((hb.beat_per_minute, hb.diastole_time), (3, 9));
    let wb = fit_windbot(&WindbotConfig {
        enabled: true, botlist: String::new(), spawn: true, port: 2399, server_ip: "127.0.0.1".into(), my_ip: String::new(),
    }).unwrap();
    assert_eq!(wb.spawn.as_deref(), Some("cd windbot && mono ./WindBot.exe ServerMode=true ServerPort=2399"));
    assert_eq!(wb.server, "http://127.0.0.1:2399");
    let (patch, start) = fit_random_duel(&RandomDuelConfig {
        enabled: true, default_type: "S".into(), no_rematch_check: true, record_match_scores: false,
        post_match_scores: false, ready_time: 0, hang_timeout: 90,
    });
    assert_eq!(patch.unwrap().default_mode, "S");
    assert_eq!(start, Some(0));
    let (report, arena, start) = fit_arena_mode(&ArenaModeConfig {
        enabled: true, mode: "athletic".into(), accesskey: "k".into(), ready_time: 30, check_permit: None,
        post_score: Some("http://score".into()), get_score: Some("http://get?username=".into()),
        punish_quit_before_match: false, init_post_url: None,
    });
    assert_eq!(report.unwrap().arena, "athletic");
    assert_eq!(arena.unwrap().get_score.as_deref(), Some("http://get"));
    assert_eq!(start, Some(30));
    let nb = fit_big_brother(
        &BigBrotherConfig { enabled: true, accesskey: "a".into(), post: "p".into() },
        Some(BadWordsConfig { level0: vec![], level1: vec!["x".into()], level2: vec![], level3: vec![] }),
    ).unwrap();
    assert_eq!(nb.behavior, vec![BadwordBehavior::Nothing, BadwordBehavior::Block, BadwordBehavior::Replace, BadwordBehavior::Silent]);
    assert_eq!(nb.bad_words[1], vec!["x".to_string()]);
    assert!(fit_big_brother(&BigBrotherConfig { enabled: true, accesskey: "a".into(), post: "p".into() }, None).is_none());
    let mut patch = MustStartPatch::new();
    patch.set_start_game(5);
    patch.set_change_side("3".into());
    patch.set_start_game(7);
    assert_eq!(patch.start_game, Some(vec![7]));
    assert_eq!(patch.change_side.as_deref(), Some("3"));
}
