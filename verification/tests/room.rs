use srvpru::srvpru::room::port_of_line;
use srvpru::ygopro::constants::Mode;
use srvpru::ygopro::message::HostInfo;

#[test]
fn rooms_start_from_single_mode() {
    let h = HostInfo::new();
    assert_eq!(h.mode, Mode::Single);
    assert_eq!(h.time_limit, 233);
    assert_eq!(h.to_string(), "S,TIME233,START5,LP8000,DRAW1,MR0,LFLIST0");
    assert_eq!(Mode::Tag.to_str(), "T");
}

#[test]
fn room_names_set_controllers() {
    let mut h = HostInfo::new();
    let name = h.decide_host_info_from_name("M,TIME120, LP4000 ,NC,OT#my room#2");
    assert_eq!(name, "my room#2");
    assert_eq!(h.mode, Mode::Match);
    assert_eq!(h.time_limit, 120);
    assert_eq!(h.start_lp, 4000);
    assert!(h.no_check_deck);
    assert!(!h.no_shuffle_deck);
    assert_eq!(h.rule, 5);
    assert_eq!(h.to_string(), "M,TIME120,START5,LP4000,DRAW1,MR5,LFLIST0,NC");
}

#[test]
fn names_without_hash_set_nothing() {
    let mut h = HostInfo::new();
    assert_eq!(h.decide_host_info_from_name("T,LP1"), "T,LP1");
    assert_eq!(h.mode, Mode::Single);
    assert_eq!(h.start_lp, 8000);
}

#[test]
fn numbers_that_do_not_parse_fall_back() {
    let mut h = HostInfo::new();
    h.decide_host_info_from_name("TIMEx,LP-5,START999,DRAW+3,LFLIST,MR#r");
    assert_eq!(h.time_limit, 180);
    assert_eq!(h.start_lp, 8000);
    assert_eq!(h.start_hand, 5);
    assert_eq!(h.draw_count, 3);
    assert_eq!(h.lflist, -1);
    assert_eq!(h.rule, 5);
    let mut h = HostInfo::new();
    h.decide_host_info_from_name("LFLIST-7,NF,TO,T#x");
    assert_eq!(h.lflist, -1);
    assert_eq!(h.rule, 1);
    assert_eq!(h.mode, Mode::Tag);
}

#[test]
fn names_written_from_a_configuration_read_back() {
    let mut original = HostInfo::new();
    original.mode = Mode::Tag;
    original.lflist = -3;
    original.rule = 2;
    original.start_lp = 16000;
    original.no_shuffle_deck = true;
    let text = original.to_string() + "#duel";
    let mut read = HostInfo::new();
    let name = read.decide_host_info_from_name(&text);
    assert_eq!(name, "duel");
    assert_eq!(read.mode, Mode::Tag);
    assert_eq!(read.lflist, -3);
    assert_eq!(read.rule, 2);
    assert_eq!(read.start_lp, 16000);
    assert!(read.no_shuffle_deck);
    assert!(!read.no_check_deck);
}

#[test]
fn duel_server_arguments() {
    let mut h = HostInfo::new();
    h.lflist = -1;
    h.no_check_deck = true;
    let args = h.generate_process_args();
    let expected = ["0", "-1", "0", "0", "5", "T", "F", "8000", "5", "1", "233", "0"];
    assert_eq!(args.iter().map(|s| s.as_str()).collect::<Vec<_>>(), expected);
}

#[test]
fn duel_server_ports() {
    assert_eq!(port_of_line("7912"), 7912);
    assert_eq!(port_of_line("+80"), 80);
    assert_eq!(port_of_line("70000"), 0);
    assert_eq!(port_of_line("abc"), 0);
}
