use srvpru::srvpru::plugins::{self, plugin_enabled, PluginError};
use srvpru::srvpru::plugins::{base::chat_command, dialogue, heartbeat, lp_recorder, mc_login, must_start, newspeak, no_roping, position_recorder, random_match, reconnect, result_report, stage_recorder, telescreen, tournament, windbot};

use srvpru::srvpru::processor::{Handler, HandlerOccasion, Registry};
use srvpru::srvpru::server::Server;
use srvpru::ygopro::constants::{Colors, Hint, Location, Mode, Netplayer};
use srvpru::ygopro::message::{gm, stoc, HostInfo, MessageType};
use srvpru::srvpru::plugins::reconnect::{reconnect_transition, ReconnectAction, ReconnectEvent, ReconnectState, ReconnectStatus, ReconnectStep};
use srvpru::srvpru::plugins::tournament::{lp_decision, LpAction};
use srvpru::srvpru::utils::CommonError;

fn names(server: &Server) -> Vec<(String, u8, String)> {
    let mut out = Vec::new();
    for p in [&server.ctos_processor, &server.stoc_processor, &server.internal_processor] {
        for occ in [HandlerOccasion::Before, HandlerOccasion::After] {
            for h in p.handlers(occ) {
                out.push((h.name().to_string(), h.priority(), h.owner().unwrap_or("-").to_string()));
            }
        }
    }
    out
}

fn registered(init: fn(&mut Registry) -> Result<(), PluginError>, plugin: &str) -> Vec<(String, u8, String)> {
    let mut registry = Registry::new();
    init(&mut registry).unwrap();
    let mut server = Server::new();
    server.register_handlers(&[plugin], &[], &[], &[], &mut registry);
    names(&server)
}

#[test]
fn welcome_registers_one_follower() {
    let mut registry = Registry::new();
    plugins::welcome::init(&mut registry).unwrap();
    let mut server = Server::new();
    server.register_handlers(&["welcome"], &[], &[], &[], &mut registry);
    let after = server.ctos_processor.handlers(HandlerOccasion::After);
    assert_eq!(after.len(), 1);
    assert_eq!(after[0].name(), "welcome");
    assert_eq!(after[0].priority(), 4);
    assert_eq!(after[0].owner(), Some("welcome"));
    assert_eq!(plugins::welcome::Configuration::default().welcome_message, "Srvpru Server");
}

#[test]
fn plugins_register_their_handlers() {
    let vc = registered(plugins::version_checker::init, "version_checker");
    assert!(vc.contains(&("version_checker".to_string(), 2, "version_checker".to_string())));
    assert!(vc.contains(&("version_checker_configuration_reloader".to_string(), 100, "version_checker".to_string())));
    let lp = registered(plugins::lp_recorder::init, "lp_recorder");
    assert_eq!(lp.len(), 7);
    assert!(lp.contains(&("lp_recorder_player_attachment_dropper".to_string(), 100, "lp_recorder".to_string())));
    let st = registered(plugins::stage_recorder::init, "stage_recorder");
    assert_eq!(st.len(), 6);
    let rc = registered(plugins::reconnect::init, "reconnect");
    assert_eq!(rc.len(), 8);
    let tl = registered(plugins::telescreen::init, "telescreen");
    assert_eq!(tl.len(), 9);
    let dbg = registered(plugins::debugger::init, "debugger");
    assert_eq!(dbg.len(), 3);
    let rl = registered(plugins::room_list::init, "room_list");
    // The update listener is filed under a plugin of its own name.
    assert_eq!(rl.len(), 2);
    let mut registry = Registry::new();
    plugins::room_list::init(&mut registry).unwrap();
    let mut server = Server::new();
    server.register_handlers(&["room_list", "room_list_update_listener"], &[], &[], &[], &mut registry);
    assert_eq!(names(&server).len(), 3);
    assert!(registered(plugins::lock_deck::init, "lock_deck").is_empty());
}

#[test]
fn dependencies_are_checked() {
    let mut registry = Registry::new();
    plugins::deck_report::init(&mut registry).unwrap();
    let mut server = Server::new();
    let missing = server.register_handlers(&["deck_report", "deck_recorder"], &[], &[], &[], &mut registry);
    assert_eq!(missing, vec![("deck_report".to_string(), "position_recorder".to_string())]);
}

#[test]
fn enabled_plugins() {
    let enabled = vec!["player".to_string(), "room".to_string()];
    assert!(plugin_enabled(&enabled, "room"));
    assert!(!plugin_enabled(&enabled, "tip"));
}

#[test]
fn chat_commands() {
    assert_eq!(chat_command::dispatch("hello", &["tip"]), chat_command::CommandOutcome::NotCommand);
    assert_eq!(chat_command::dispatch("/tip", &["ai", "tip"]), chat_command::CommandOutcome::Run(1));
    assert_eq!(chat_command::dispatch("/tipx", &["tip", "tipx"]), chat_command::CommandOutcome::Run(0));
    assert_eq!(chat_command::dispatch("/nope", &["tip"]), chat_command::CommandOutcome::Unknown);
    let h: Handler = chat_command::before_message("tip");
    assert_eq!(h.name(), "chat_command_tip");
}

#[test]
fn bad_words() {
    let c = newspeak::Configuration {
        bad_words: vec![vec!["meh".to_string()], vec!["bad".to_string()], vec!["worse".to_string()]],
        behavior: vec![newspeak::BadwordBehavior::Nothing, newspeak::BadwordBehavior::Replace, newspeak::BadwordBehavior::Block],
        report_to_big_brother: String::new(),
        big_brother_access_key: String::new(),
    };
    let mut t = "a bad and meh day".to_string();
    assert_eq!(newspeak::judge_bad_word_level(&c, &mut t), 0);
    assert_eq!(t, "a ** and meh day");
    let mut t = "worse and bad".to_string();
    assert_eq!(newspeak::judge_bad_word_level(&c, &mut t), 2);
    assert_eq!(t, "worse and bad");
    let mut t = "fine".to_string();
    assert_eq!(newspeak::judge_bad_word_level(&c, &mut t), -1);
    assert_eq!(newspeak::chat_warning(1), "{chat_warn_level1}");
    assert_eq!(newspeak::bad_name_message(-1), "{bad_name_level-1}");
}

#[test]
fn mycard_passwords() {
    assert_eq!(mc_login::secret(0), 1);
    assert_eq!(mc_login::secret(65535), 1);
    assert!(mc_login::check_checksum(&[0x80, 0x80, 0, 0, 0, 0]));
    assert!(!mc_login::check_checksum(&[1, 0, 0, 0, 0, 0]));
    // 0x10 0xf0 xor the key 0x0001 gives 0x11 0xf0, which does not add up.
    assert_eq!(mc_login::login_operation(b"EPA=", 0), Err(mc_login::LoginError::Checksum));
    // 0x11 0xef xor 0x0001 gives 0x10 0xef: 0x10 + 0xef = 0xff, no.
    // 0x11 0xf0 xor 0x0001 gives 0x10 0xf0: 0x100, yes.
    assert_eq!(mc_login::login_operation(b"EfA=", 0), Ok(vec![0x10, 0xf0, 0, 0, 0, 0]));
    assert_eq!(mc_login::login_operation(b"!!!!", 0), Err(mc_login::LoginError::Decode));
    assert_eq!(mc_login::login_operation(b"AA==", 0), Err(mc_login::LoginError::Short));
    let op = [0x10u8, 0xf0, 0, 0, 0, 0];
    assert_eq!(mc_login::action_of(&op), Some(mc_login::Action::CreatePublicRoom));
    let h = mc_login::host_info_of(&op).unwrap();
    assert_eq!(h.mode, Mode::Single);
    assert_eq!(h.duel_rule, 5);
    assert_eq!(h.time_limit, 240);
    assert_eq!(mc_login::room_password(mc_login::Action::JoinMatch, &op, "abc"), Some("M#abc".to_string()));
    assert_eq!(mc_login::room_password(mc_login::Action::JoinRoomById, &op, "abc"), Some("abc".to_string()));
    assert_eq!(mc_login::room_password(mc_login::Action::CreatePublicRoom, &op, "r"), Some("S,TIME240,START0,LP0,DRAW0,MR0,LFLIST1,r".to_string()));
    assert!(mc_login::host_info_of(&[0x10, 0, 0x18, 0, 0, 0]).is_none());
}

#[test]
fn random_matches() {
    assert_eq!(random_match::mode_of_password(""), Some(Mode::Match));
    assert_eq!(random_match::mode_of_password("T"), Some(Mode::Tag));
    assert_eq!(random_match::mode_of_password("X"), None);
    assert!(random_match::can_join_room(3, Mode::Tag));
    assert!(!random_match::can_join_room(2, Mode::Single));
    assert_eq!(random_match::enter_message(Mode::Single), "{random_duel_enter_room_single}");
    assert_eq!(random_match::random_room_name("", 123), "M#random_match_123");
}

#[test]
fn tournaments() {
    assert_eq!(tournament::decide_result_by_lp(100, 200), Some(Netplayer::Player1));
    assert_eq!(tournament::decide_result_by_lp(300, 200), Some(Netplayer::Player2));
    assert_eq!(tournament::decide_result_by_lp(5, 5), None);
    assert_eq!(tournament::new_turn(tournament::TournamentState::Death(4), Netplayer::Player1, 1, 1), (tournament::TournamentState::Death(3), tournament::TurnOutcome::Remaining(3)));
    assert_eq!(tournament::new_turn(tournament::TournamentState::Death(4), Netplayer::Player2, 1, 1), (tournament::TournamentState::Death(4), tournament::TurnOutcome::Nothing));
    assert_eq!(tournament::new_turn(tournament::TournamentState::Death(1), Netplayer::Player1, 1, 1), (tournament::TournamentState::Sudden, tournament::TurnOutcome::SuddenDeath));
    assert_eq!(tournament::new_turn(tournament::TournamentState::Death(1), Netplayer::Player1, 1, 2), (tournament::TournamentState::Death(1), tournament::TurnOutcome::Decided(Netplayer::Player1)));
    assert_eq!(tournament::remaining_text(2), "{death_remain_part1} 2 {death_remain_part2}");
}

#[test]
fn life_points_and_roping() {
    assert_eq!(lp_recorder::lp_after(Netplayer::Player1, 8000, Netplayer::Player1, lp_recorder::LpEvent::Damage(500)), Some(7500));
    assert_eq!(lp_recorder::lp_after(Netplayer::Player1, 8000, Netplayer::Player2, lp_recorder::LpEvent::Damage(500)), None);
    assert_eq!(lp_recorder::lp_after(Netplayer::Player2, 100, Netplayer::Player2, lp_recorder::LpEvent::Update(42)), Some(42));
    assert_eq!(lp_recorder::lp_or_default(None), 8000);
    let c = no_roping::Configuration::default();
    assert_eq!(no_roping::roping_action(&c, 100_000, 0, Netplayer::Player1, false), no_roping::RopingAction::Expel);
    assert_eq!(no_roping::roping_action(&c, 72_000, 0, Netplayer::Player1, false), no_roping::RopingAction::Warn(18));
    assert_eq!(no_roping::roping_action(&c, 80_000, 0, Netplayer::Player1, false), no_roping::RopingAction::Nothing);
    assert_eq!(no_roping::roping_action(&c, 100_000, 0, Netplayer::Observer, false), no_roping::RopingAction::Nothing);
    assert_eq!(no_roping::warn_text("bob", 18), "bob{afk_warn_part1}18{afk_warn_part2}");
}

#[test]
fn seats_and_stages() {
    assert_eq!(position_recorder::record_type_change(Netplayer::Observer, 0x11), (Netplayer::Player2, true));
    assert_eq!(position_recorder::record_type_change(Netplayer::Player1, 0x0f), (Netplayer::Player1, false));
    assert!(position_recorder::is_full(Mode::Match, &[Netplayer::Player2, Netplayer::Player1]));
    assert!(!position_recorder::is_full(Mode::Tag, &[Netplayer::Player2, Netplayer::Player1]));
    assert_eq!(position_recorder::get_host(&[false, true, true]), Some(1));
    assert_eq!(position_recorder::players_in_order(&[Netplayer::Observer, Netplayer::Player2, Netplayer::Player1, Netplayer::Player2]), vec![2, 1, 3, 0]);
    assert_eq!(stage_recorder::stage_after(MessageType::STOC(stoc::MessageType::SelectTp), stage_recorder::DuelStage::Finger), stage_recorder::DuelStage::Firstgo);
    assert_eq!(stage_recorder::stage_after(MessageType::GM(gm::MessageType::Start), stage_recorder::DuelStage::Firstgo), stage_recorder::DuelStage::Dueling);
    assert_eq!(stage_recorder::stage_after(MessageType::GM(gm::MessageType::Win), stage_recorder::DuelStage::Dueling), stage_recorder::DuelStage::Dueling);
}

#[test]
fn reconnecting() {
    let a = reconnect::SocketAddress { ip: reconnect::IpAddress::V4([10, 0, 0, 1]), port: 1 };
    let b = reconnect::SocketAddress { ip: reconnect::IpAddress::V4([10, 0, 0, 1]), port: 2 };
    let c = reconnect::SocketAddress { ip: reconnect::IpAddress::V6([0, 0, 0, 0, 0, 0xffff, 0x0a00, 1]), port: 1 };
    assert!(reconnect::ip_equal(a, b));
    assert!(!reconnect::ip_equal(a, c));
    assert!(reconnect::holds_leaving_player(false, stage_recorder::DuelStage::Dueling));
    assert!(!reconnect::holds_leaving_player(false, stage_recorder::DuelStage::End));
    assert_eq!(reconnect::reconnect_step(stage_recorder::DuelStage::Siding), reconnect::ReconnectStep::Resend(stoc::MessageType::ChangeSide));
    assert_eq!(reconnect::reconnect_step(stage_recorder::DuelStage::Begin), reconnect::ReconnectStep::Nothing);
    assert!(reconnect::records_game_message(reconnect::ReconnectStatus::Normal, gm::MessageType::Hint));
    assert!(!reconnect::records_game_message(reconnect::ReconnectStatus::Normal, gm::MessageType::Retry));
    assert!(reconnect::records_hint(Hint::SelectMessage));
}

#[test]
fn telescreen_and_heartbeat() {
    assert!(telescreen::is_telescreen("The telescreen"));
    assert_eq!(telescreen::watch_change(1), None);
    assert_eq!(telescreen::watch_change(3), Some(2));
    let bytes = telescreen::join_bytes(0x1348);
    assert_eq!(&bytes[0..3], &[41, 0, 16]);
    assert_eq!(bytes.len(), 43 + 51 + 3);
    assert_eq!(&bytes[bytes.len() - 3..], &[1, 0, 33]);
    assert!(heartbeat::exempt_on_confirm(&[Location::Hand, Location::Extra]));
    assert!(!heartbeat::exempt_on_confirm(&[Location::Hand]));
    assert!(heartbeat::chain_resolved(Some(MessageType::GM(gm::MessageType::ChainEnd))));
    assert!(!heartbeat::chain_resolved(None));
}

#[test]
fn countdowns_and_scores() {
    let plan = must_start::countdown_plan(&[30, 10, 5]);
    assert_eq!(plan.len(), 3);
    assert_eq!((plan[0].rest_time, plan[0].wait, plan[0].color), (30, 20, Colors::Babyblue));
    assert_eq!((plan[2].rest_time, plan[2].wait, plan[2].color), (5, 5, Colors::Red));
    assert!(must_start::is_all_ready(&[(true, None), (false, Some(true))]));
    assert!(!must_start::is_all_ready(&[(true, None), (false, Some(false))]));
    let mut a = result_report::PlayerMatchResult { score: result_report::MatchScore::Zero };
    let mut b = result_report::PlayerMatchResult::default();
    result_report::record_win(&mut a, &mut b, Netplayer::Player1);
    result_report::record_win(&mut a, &mut b, Netplayer::Player2);
    assert_eq!(a.score, result_report::MatchScore::One);
    assert_eq!(b.score, result_report::MatchScore::NotStarted);
    assert_eq!(result_report::MatchScore::Dropped.into_i8(), -9);
}

#[test]
fn bots_and_dialogues() {
    let c = windbot::Configuration {
        spawn: None,
        server: "http://bots".to_string(),
        bots: vec![
            windbot::Bot { name: "a".to_string(), deck: "d1".to_string(), dialog: String::new(), hidden: false },
            windbot::Bot { name: "h".to_string(), deck: "d2".to_string(), dialog: String::new(), hidden: true },
        ],
    };
    assert_eq!(windbot::select_a_bot(&c, None).unwrap().name, "a");
    assert_eq!(windbot::select_a_bot(&c, Some("h")).unwrap().name, "h");
    assert!(windbot::select_a_bot(&c, Some("zz")).is_none());
    assert!(windbot::is_ai_room("AI#x"));
    assert_eq!(windbot::ai_command_bot_name("/ai  bob "), "bob");
    assert_eq!(dialogue::lines_of_dialogue("a\nb"), vec!["[Server]: a".to_string(), "[Server]: b".to_string()]);
    let mut d = dialogue::Configuration { dialogues: std::collections::HashMap::new() };
    d.dialogues.insert(7, vec!["x".to_string()]);
    assert_eq!(dialogue::pick_dialogue(&d, 7), Some(vec!["[Server]: x".to_string()]));
    assert_eq!(dialogue::pick_dialogue(&d, 8), None);
}

fn v4(last: u8, port: u16) -> reconnect::SocketAddress {
    reconnect::SocketAddress { ip: reconnect::IpAddress::V4([10, 0, 0, last]), port }
}

#[test]
fn reconnect_holds_a_leaving_player_and_expels_it_on_timeout() {
    let a = v4(1, 1000);
    let state = ReconnectState::new();
    let (state, actions) = reconnect_transition(state, ReconnectEvent::UpdateDeck { addr: a, deck: vec![1, 2, 3], stage: stage_recorder::DuelStage::Begin });
    assert!(matches!(actions.as_slice(), [ReconnectAction::Forward]));
    let (state, actions) = reconnect_transition(state, ReconnectEvent::PlayerDestroyed { addr: a, name: "Alice".to_string(), stage: stage_recorder::DuelStage::Dueling });
    assert_eq!(actions.len(), 3);
    assert!(matches!(actions[0], ReconnectAction::Hold));
    match &actions[1] {
        ReconnectAction::TellRoom(text) => assert_eq!(text, "Alice {disconnect_from_game}"),
        _ => panic!("expected a line to the room"),
    }
    assert!(matches!(actions[2], ReconnectAction::Block));
    let (state, actions) = reconnect_transition(state, ReconnectEvent::Timeout { addr: a });
    assert!(matches!(actions.as_slice(), [ReconnectAction::ExpelHeld(x)] if reconnect::same_address(*x, a)));
    // The destroy that follows goes through and forgets the player.
    let (state, actions) = reconnect_transition(state, ReconnectEvent::PlayerDestroyed { addr: a, name: "Alice".to_string(), stage: stage_recorder::DuelStage::Dueling });
    assert!(matches!(actions.as_slice(), [ReconnectAction::Forward]));
    assert!(state.records.is_empty());
    assert!(state.held.is_some());
}

#[test]
fn reconnect_lets_a_player_back_with_its_deck() {
    let a = v4(1, 1000);
    let back = v4(1, 2000);
    let state = ReconnectState::new();
    let (state, _) = reconnect_transition(state, ReconnectEvent::UpdateDeck { addr: a, deck: vec![7, 7], stage: stage_recorder::DuelStage::Begin });
    let (state, _) = reconnect_transition(state, ReconnectEvent::PlayerDestroyed { addr: a, name: "Bob".to_string(), stage: stage_recorder::DuelStage::Siding });
    // From another address the client joins as anyone would.
    let (state, actions) = reconnect_transition(state, ReconnectEvent::JoinGame { addr: v4(2, 2000), host_info: HostInfo::new() });
    assert!(matches!(actions.as_slice(), [ReconnectAction::Forward]));
    let (state, actions) = reconnect_transition(state, ReconnectEvent::JoinGame { addr: back, host_info: HostInfo::new() });
    assert_eq!(actions.len(), 4);
    match &actions[0] {
        ReconnectAction::Send(seq) => assert_eq!(seq.messages.len(), 4),
        _ => panic!("expected the room"),
    }
    assert!(matches!(&actions[1], ReconnectAction::TellSender(t) if t == "{pre_reconnecting_to_room}"));
    assert!(matches!(actions[2], ReconnectAction::AdmitSender));
    assert!(matches!(actions[3], ReconnectAction::Block));
    let (state, actions) = reconnect_transition(state, ReconnectEvent::UpdateDeck { addr: back, deck: vec![7, 7], stage: stage_recorder::DuelStage::Siding });
    assert_eq!(actions.len(), 4);
    assert!(matches!(&actions[0], ReconnectAction::TellSender(t) if t == "{reconnecting_to_room}"));
    assert!(matches!(actions[1], ReconnectAction::MoveHeld));
    assert!(matches!(actions[2], ReconnectAction::Restore(ReconnectStep::Resend(stoc::MessageType::ChangeSide))));
    assert!(matches!(actions[3], ReconnectAction::Block));
    assert_eq!(state.records.len(), 1);
    assert_eq!(state.records[0].status, ReconnectStatus::Recovering);
    let (state, actions) = reconnect_transition(state, ReconnectEvent::HsReady { addr: back });
    assert!(matches!(actions.as_slice(), [ReconnectAction::Block]));
    let (state, actions) = reconnect_transition(state, ReconnectEvent::FieldFinish { addr: back });
    assert!(actions.is_empty());
    assert!(state.held.is_none());
    let (_, actions) = reconnect_transition(state, ReconnectEvent::HsReady { addr: back });
    assert!(matches!(actions.as_slice(), [ReconnectAction::Forward]));
}

#[test]
fn reconnect_refuses_another_deck_and_replays_what_was_missed() {
    let a = v4(1, 1000);
    let b = v4(3, 1000);
    let back = v4(1, 2000);
    let state = ReconnectState::new();
    let (state, _) = reconnect_transition(state, ReconnectEvent::UpdateDeck { addr: a, deck: vec![1], stage: stage_recorder::DuelStage::Begin });
    let (state, _) = reconnect_transition(state, ReconnectEvent::GameMessage { addr: a, kind: gm::MessageType::Hint, data: vec![9, 9] });
    let (state, _) = reconnect_transition(state, ReconnectEvent::GameMessage { addr: a, kind: gm::MessageType::Retry, data: vec![8] });
    let hint = gm::Hint { _type: Hint::SelectMessage, player: Netplayer::Player1, data: 5 };
    let (state, _) = reconnect_transition(state, ReconnectEvent::Hint { addr: a, hint });
    let (state, _) = reconnect_transition(state, ReconnectEvent::PlayerDestroyed { addr: a, name: "Cat".to_string(), stage: stage_recorder::DuelStage::Dueling });
    let (state, _) = reconnect_transition(state, ReconnectEvent::JoinGame { addr: back, host_info: HostInfo::new() });
    let (state, actions) = reconnect_transition(state, ReconnectEvent::UpdateDeck { addr: back, deck: vec![2], stage: stage_recorder::DuelStage::Dueling });
    assert!(matches!(actions.as_slice(), [ReconnectAction::RefuseDeck, ReconnectAction::Block]));
    // A second player leaving while one is held: it loses, the held one goes.
    let (_, actions) = reconnect_transition(state, ReconnectEvent::PlayerDestroyed { addr: b, name: "Dan".to_string(), stage: stage_recorder::DuelStage::Dueling });
    assert_eq!(actions.len(), 3);
    assert!(matches!(actions[0], ReconnectAction::CutServer));
    assert!(matches!(actions[1], ReconnectAction::ExpelHeld(x) if reconnect::same_address(x, a)));
    assert!(matches!(actions[2], ReconnectAction::Forward));

    // What a player is sent again after the field.
    let state = ReconnectState::new();
    let (state, _) = reconnect_transition(state, ReconnectEvent::GameMessage { addr: a, kind: gm::MessageType::Hint, data: vec![1] });
    let (state, _) = reconnect_transition(state, ReconnectEvent::Hint { addr: a, hint: gm::Hint { _type: Hint::SelectMessage, player: Netplayer::Player1, data: 5 } });
    let (state, _) = reconnect_transition(state, ReconnectEvent::GameMessage { addr: a, kind: gm::MessageType::Hint, data: vec![4, 2] });
    let (_, actions) = reconnect_transition(state, ReconnectEvent::FieldFinish { addr: a });
    assert_eq!(actions.len(), 2);
    assert!(matches!(&actions[0], ReconnectAction::SendHint(h) if h.data == 5));
    assert!(matches!(&actions[1], ReconnectAction::SendRaw(d) if d == &vec![4u8, 2]));
}

#[test]
fn tournament_decides_by_life_points() {
    assert_eq!(lp_decision(Some(Some(100)), Some(None)).unwrap(), (true, vec![LpAction::Surrender(Netplayer::Player1), LpAction::Expel(Netplayer::Player1)]));
    assert_eq!(lp_decision(Some(Some(9000)), Some(None)).unwrap(), (true, vec![LpAction::Surrender(Netplayer::Player2), LpAction::Expel(Netplayer::Player2)]));
    assert_eq!(lp_decision(Some(None), Some(Some(8000))).unwrap(), (false, vec![]));
    assert_eq!(lp_decision(None, Some(Some(1))).unwrap_err(), CommonError::PlayerNotExist);
    assert_eq!(lp_decision(Some(Some(1)), None).unwrap_err(), CommonError::PlayerNotExist);
}

#[test]
fn a_plugin_with_a_configuration_starts_once() {
    let mut registry = Registry::new();
    assert_eq!(plugins::welcome::init(&mut registry), Ok(()));
    assert_eq!(plugins::welcome::init(&mut registry), Err(PluginError::ConfigurationAlreadySet));
    let mut server = Server::new();
    server.register_handlers(&["welcome"], &[], &[], &[], &mut registry);
    let listed: Vec<String> = names(&server).into_iter().map(|(n, _, _)| n).filter(|n| n == "welcome").collect();
    assert_eq!(listed, vec!["welcome".to_string()]);
    // One without a configuration registers again, as it always did.
    let mut registry = Registry::new();
    assert_eq!(plugins::stage_recorder::init(&mut registry), Ok(()));
    assert_eq!(plugins::stage_recorder::init(&mut registry), Ok(()));
}
