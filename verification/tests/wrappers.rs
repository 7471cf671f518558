use srvpru::srvpru::plugins::mc_login::{user_url, Configuration as LoginConfiguration};
use srvpru::srvpru::plugins::result_report::{MatchResultReport, MatchScore};
use srvpru::srvpru::plugins::tip::{select_a_tip, Configuration as TipConfiguration};
use srvpru::ygopro::data::Deck;
use srvpru::ygopro::message::utils::Message;
use srvpru::ygopro::message::{ctos, deserialize_struct_by_type, stoc, MessageType};

#[test]
fn user_records_are_read_by_encoded_name() {
    let c = LoginConfiguration {
        auth_base_url: "https://auth".to_string(),
        auth_access_key: "key".to_string(),
        permit_url: None,
        arena: None,
    };
    assert_eq!(user_url(&c, "a b/c"), "https://auth/users/a%20b%2Fc.json?api_key=key&skip_track_visit=true");
    assert_eq!(user_url(&c, "\u{e9}~x-_.Z9"), "https://auth/users/%C3%A9~x-_.Z9.json?api_key=key&skip_track_visit=true");
}

#[test]
fn match_reports_as_form_fields() {
    let report = MatchResultReport {
        access_key: "k".to_string(),
        user_a_name: "a".to_string(),
        user_b_name: "b".to_string(),
        user_a_score: MatchScore::Two,
        user_b_score: MatchScore::Dropped,
        user_a_deck: Deck::default(),
        user_b_deck: Deck { main: vec![1], side: vec![], ex: vec![] },
        first: vec!["a".to_string(), "q\"".to_string()],
        replays: vec![],
        start: -1,
        end: 1700000000,
        arena: "athletic".to_string(),
    };
    let form = report.to_form();
    assert_eq!(form.len(), 12);
    assert_eq!(form[3], ("userscoreA", "2".to_string()));
    assert_eq!(form[4], ("userscoreB", "-9".to_string()));
    assert_eq!(form[6].1, "#generated by srvpru deck log\n#main\n1\n!side\n");
    assert_eq!(form[7], ("first", "[\"a\",\"q\\\"\"]".to_string()));
    assert_eq!(form[9], ("start", "-1".to_string()));
    assert_eq!(form[10], ("end", "1700000000".to_string()));
}

#[test]
fn first_players_are_written_as_json() {
    let mut report = MatchResultReport {
        access_key: "k".to_string(),
        user_a_name: "a".to_string(),
        user_b_name: "b".to_string(),
        user_a_score: MatchScore::Two,
        user_b_score: MatchScore::Two,
        user_a_deck: Deck::default(),
        user_b_deck: Deck::default(),
        first: vec![],
        replays: vec![],
        start: 0,
        end: 0,
        arena: "a".to_string(),
    };
    assert_eq!(report.clone().to_form()[7].1, "[]");
    report.first = vec!["\n\u{1}\u{e9}\\/".to_string(), "\t".to_string()];
    assert_eq!(report.to_form()[7].1, "[\"\\n\\u0001\u{e9}\\\\/\",\"\\t\"]");
}

#[test]
fn tips_are_picked_among_the_configured() {
    let none = TipConfiguration::default();
    assert_eq!(select_a_tip(&none), "N/A");
    let some = TipConfiguration { tips: vec!["x".to_string(), "y".to_string()], ..TipConfiguration::default() };
    let t = select_a_tip(&some);
    assert!(t == "x" || t == "y");
}

#[test]
fn bodies_read_back_from_their_bytes() {
    let messages = vec![
        Message::CtosJoinGame(ctos::JoinGame { version: 0x1348, align: 0, gameid: 7, pass: [65u16; 20] }),
        Message::StocTypeChange(stoc::TypeChange { _type: 0x10 }),
        Message::CtosChat(ctos::Chat { msg: vec![104, 105, 0] }),
    ];
    for m in messages {
        let t: MessageType = m.message_type();
        let bytes = m.serialize();
        let back = deserialize_struct_by_type(t, &bytes).expect("reads back");
        assert_eq!(back.serialize(), bytes);
        assert_eq!(back.message_type(), t);
    }
}
