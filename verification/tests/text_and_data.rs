use srvpru::ygopro::data::{DataError, Deck, LFLists, Replay, ReplayHeader};
use srvpru::ygopro::message::ctos::UpdateDeck;
use srvpru::ygopro::message::string::{cast_to_c_array, cast_to_fix_length_array, cast_to_string, encode_utf16};

#[test]
fn c_arrays_end_in_nul() {
    assert_eq!(cast_to_c_array("ab"), vec![97, 98, 0]);
    assert_eq!(cast_to_c_array(""), vec![0]);
    assert_eq!(cast_to_c_array("\u{1F600}"), vec![0xD83D, 0xDE00, 0]);
    assert_eq!(encode_utf16("é"), vec![0xE9]);
}

#[test]
fn fixed_arrays_are_padded() {
    let a: [u16; 20] = cast_to_fix_length_array("abc");
    assert_eq!(&a[0..4], &[97, 98, 99, 0]);
    assert!(a[3..].iter().all(|&u| u == 0));
}

#[test]
fn strings_read_up_to_the_first_nul() {
    let mut units = vec![104u16, 101, 108, 108, 111, 0, 120];
    assert_eq!(cast_to_string(&units), Some("hello".to_string()));
    units.truncate(5);
    assert_eq!(cast_to_string(&units), None);
    assert_eq!(cast_to_string(&[0xD83D, 0xDE00, 0]), Some("\u{1F600}".to_string()));
    // A lone surrogate is malformed.
    assert_eq!(cast_to_string(&[0xD800, 0]), None);
    assert_eq!(cast_to_string(&[0]), Some(String::new()));
}

#[test]
fn decks_and_update_messages() {
    let data = UpdateDeck { mainc: 2, sidec: 1, deckbuf: vec![11, 22, 33, 44] };
    let deck = Deck::from_data(&data);
    assert_eq!(deck.main, vec![11, 22]);
    assert_eq!(deck.side, vec![33]);
    assert!(deck.ex.is_empty());
    let back = deck.to_update_deck();
    assert_eq!(back.mainc, 2);
    assert_eq!(back.sidec, 1);
    assert_eq!(back.deckbuf, vec![11, 22, 33]);
    assert_eq!(Deck::from_data(&back), deck);
}

#[test]
fn deck_files() {
    let deck = Deck { main: vec![89631139, 5], side: vec![7], ex: vec![] };
    assert_eq!(deck.to_string(), "#generated by srvpru deck log\n#main\n89631139\n5\n!side\n7\n");
    assert_eq!(Deck::default().to_string(), "#generated by srvpru deck log\n#main\n!side\n");
}

fn header(flag: u32, data_size: u32, props: [u8; 8]) -> Vec<u8> {
    let mut v = Vec::new();
    for w in [0x31707279u32, 0x1348, flag, 42, data_size, 1000] {
        v.extend_from_slice(&w.to_le_bytes());
    }
    v.extend_from_slice(&props);
    v
}

fn name(s: &str) -> Vec<u8> {
    let mut units: Vec<u16> = s.encode_utf16().collect();
    units.resize(20, 0);
    units.iter().flat_map(|u| u.to_le_bytes()).collect()
}

fn deck_bytes(main: &[u32], ex: &[u32]) -> Vec<u8> {
    let mut v = Vec::new();
    v.extend_from_slice(&(main.len() as u32).to_le_bytes());
    for c in main { v.extend_from_slice(&c.to_le_bytes()); }
    v.extend_from_slice(&(ex.len() as u32).to_le_bytes());
    for c in ex { v.extend_from_slice(&c.to_le_bytes()); }
    v
}

fn body(tag: bool, chunks: &[&[u8]]) -> Vec<u8> {
    let mut v = Vec::new();
    v.extend(name("host"));
    if tag {
        v.extend(name("host2"));
        v.extend(name("client2"));
    }
    v.extend(name("client"));
    for w in [8000u32, 5, 1, 0] { v.extend_from_slice(&w.to_le_bytes()); }
    v.extend(deck_bytes(&[1, 2], &[3]));
    if tag {
        v.extend(deck_bytes(&[4], &[]));
        v.extend(deck_bytes(&[5], &[]));
    }
    v.extend(deck_bytes(&[6], &[7, 8]));
    for c in chunks {
        v.push(c.len() as u8);
        v.extend_from_slice(c);
    }
    v
}

#[test]
fn replay_headers() {
    assert_eq!(ReplayHeader::from_reader(&[0u8; 31]).unwrap_err(), DataError::UnexpectedEof);
    let h = ReplayHeader::from_reader(&header(3, 77, [1, 2, 3, 4, 5, 6, 7, 8])).unwrap();
    assert_eq!(h.id, 0x31707279);
    assert_eq!(h.data_size, 77);
    assert_eq!(h.props, [1, 2, 3, 4, 5, 6, 7, 8]);
    assert!(h.is_compressed());
    assert!(h.is_tag());
    assert!(!h.is_decoded());
}

#[test]
fn replay_bodies() {
    let h = ReplayHeader::from_reader(&header(1, 0, [0; 8])).unwrap();
    let r = Replay::from_decompressed(h, &body(false, &[&[9, 9], &[]])).unwrap();
    assert_eq!(r.host_name, "host");
    assert_eq!(r.client_name, "client");
    assert_eq!(r.start_lp, 8000);
    assert_eq!(r.start_hand, 5);
    assert_eq!(r.draw_count, 1);
    assert_eq!(r.host_deck.main, vec![1, 2]);
    assert_eq!(r.host_deck.ex, vec![3]);
    assert_eq!(r.client_deck.ex, vec![7, 8]);
    assert!(r.tag_host_name.is_none());
    assert_eq!(r.datas, vec![vec![9, 9], vec![]]);

    let h = ReplayHeader::from_reader(&header(2, 0, [0; 8])).unwrap();
    let r = Replay::from_decompressed(h, &body(true, &[])).unwrap();
    assert_eq!(r.tag_host_name.as_deref(), Some("host2"));
    assert_eq!(r.tag_client_name.as_deref(), Some("client2"));
    assert_eq!(r.tag_host_deck.unwrap().main, vec![4]);
    assert_eq!(r.tag_client_deck.unwrap().main, vec![5]);
    assert!(r.datas.is_empty());
}

#[test]
fn broken_replay_bodies() {
    let h = || ReplayHeader::from_reader(&header(0, 0, [0; 8])).unwrap();
    let mut b = body(false, &[&[1, 2, 3]]);
    b.pop();
    assert_eq!(Replay::from_decompressed(h(), &b).unwrap_err(), DataError::UnexpectedEof);
    let mut b = body(false, &[]);
    for i in 0..40 { b[i] = b'x'; }
    assert_eq!(Replay::from_decompressed(h(), &b).unwrap_err(), DataError::IllegalString);
    assert_eq!(Replay::from_decompressed(h(), &b[0..10]).unwrap_err(), DataError::UnexpectedEof);
}

#[test]
fn compressed_replays() {
    let plain = body(false, &[&[1, 2, 3, 4]]);
    let mut packed = Vec::new();
    lzma_rs::lzma_compress(&mut std::io::Cursor::new(plain.clone()), &mut packed).unwrap();
    // props and dictionary size, then the unpacked size, then the stream
    let mut props = [0u8; 8];
    props[0..5].copy_from_slice(&packed[0..5]);
    let mut file = header(1, plain.len() as u32, props);
    file.extend_from_slice(&packed[13..]);
    let r = Replay::from_reader(&file).unwrap();
    assert_eq!(r.host_name, "host");
    assert_eq!(r.datas, vec![vec![1, 2, 3, 4]]);

    let mut broken = header(1, plain.len() as u32, props);
    broken.extend_from_slice(&[0xff; 4]);
    assert_eq!(Replay::from_reader(&broken).unwrap_err(), DataError::Decompress);
    assert_eq!(Replay::from_reader(&file[0..20]).unwrap_err(), DataError::UnexpectedEof);
}

#[test]
fn ban_lists() {
    let mut lists = LFLists::new();
    lists.init("#comment\r\n!2021.1 OCG\r\n!2021.1 TCG\n$whitelist\n!last");
    assert_eq!(lists.first_tcg(), 1);
    let mut none = LFLists::new();
    none.init("!a\n!b\n");
    assert_eq!(none.first_tcg(), -1);
}

#[test]
fn texts_come_back_from_their_arrays() {
    for text in ["", "Alice", "\u{4f60}\u{597d}", "\u{1f600} smile"] {
        assert_eq!(cast_to_string(&cast_to_c_array(text)), Some(text.to_string()));
        assert_eq!(cast_to_string(&cast_to_fix_length_array::<20>(text)), Some(text.to_string()));
    }
    // A byte order mark in front is taken by the decoder.
    assert_eq!(cast_to_string(&cast_to_c_array("\u{feff}x")), Some("x".to_string()));
    // No NUL, no text.
    assert_eq!(cast_to_string(&[0x41u16, 0x42]), None);
}
