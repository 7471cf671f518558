use srvpru::ygopro::constants::{Mode, Netplayer};
use srvpru::ygopro::message::generate::{wrap_data, wrap_mapped_struct};
use srvpru::ygopro::message::gm::{Damage, GameMessage, GameMessageBody};
use srvpru::ygopro::message::utils::Message;
use srvpru::ygopro::message::{
    ctos, deserialize_struct_by_type, gm, stoc, try_get_message_type, Direction, HostInfo, MappedStruct,
    MessageSequence, MessageType, Struct, StructSequence,
};

#[test]
fn host_info_default_layout() {
    let h = HostInfo::default();
    let bytes = h.serialize();
    assert_eq!(bytes, vec![0, 0, 0, 0, 0, 1, 5, 0, 0, 0, 0, 0, 0x40, 0x1f, 0, 0, 5, 1, 0xb4, 0]);
    let back = HostInfo::deserialize(&bytes).unwrap();
    assert_eq!(back.mode, Mode::Match);
    assert_eq!(back.start_lp, 8000);
    assert_eq!(back.time_limit, 180);
}

#[test]
fn host_info_refuses_unknown_mode_and_bad_bool() {
    let mut bytes = HostInfo::default().serialize();
    bytes[5] = 9;
    assert!(HostInfo::deserialize(&bytes).is_none());
    let mut bytes = HostInfo::default().serialize();
    bytes[7] = 2;
    assert!(HostInfo::deserialize(&bytes).is_none());
    assert!(HostInfo::deserialize(&[0u8; 19]).is_none());
}

#[test]
fn update_deck_reads_greedily_up_to_its_cap() {
    let deck = ctos::UpdateDeck { mainc: 2, sidec: 1, deckbuf: vec![10, 20, 30] };
    let bytes = deck.serialize();
    assert_eq!(bytes.len(), 8 + 12);
    let back = ctos::UpdateDeck::deserialize(&bytes).unwrap();
    assert_eq!(back.mainc, 2);
    assert_eq!(back.sidec, 1);
    assert_eq!(back.deckbuf, vec![10, 20, 30]);
    // Two trailing bytes are not a whole code and are left out.
    let mut longer = bytes.clone();
    longer.extend_from_slice(&[1, 2]);
    assert_eq!(ctos::UpdateDeck::deserialize(&longer).unwrap().deckbuf, vec![10, 20, 30]);
    // No more than ninety codes are read.
    let mut many = vec![0u8; 8];
    many.extend(std::iter::repeat(7u8).take(4 * 100));
    assert_eq!(ctos::UpdateDeck::deserialize(&many).unwrap().deckbuf.len(), 90);
}

#[test]
fn game_message_with_and_without_body() {
    let m = GameMessage { kind: gm::MessageType::Damage, message: GameMessageBody::Damage(Damage { player: Netplayer::Player2, value: 500 }) };
    let bytes = m.serialize();
    assert_eq!(bytes, vec![91, 1, 0xf4, 1, 0, 0]);
    let back = GameMessage::deserialize(&bytes).unwrap();
    assert_eq!(back.kind, gm::MessageType::Damage);
    match back.message {
        GameMessageBody::Damage(d) => {
            assert_eq!(d.player, Netplayer::Player2);
            assert_eq!(d.value, 500);
        },
        _ => panic!("wrong body"),
    }
    // A kind that is not looked into keeps an empty body.
    let retry = GameMessage::deserialize(&[1, 9, 9]).unwrap();
    assert_eq!(retry.kind, gm::MessageType::Retry);
    assert!(matches!(retry.message, GameMessageBody::Empty(_)));
    // An unknown kind is refused.
    assert!(GameMessage::deserialize(&[0]).is_none());
}

#[test]
fn message_types_from_header_bytes() {
    assert_eq!(try_get_message_type(Direction::CTOS, 22), Some(MessageType::CTOS(ctos::MessageType::Chat)));
    assert_eq!(try_get_message_type(Direction::STOC, 1), Some(MessageType::STOC(stoc::MessageType::GameMessage)));
    assert_eq!(try_get_message_type(Direction::CTOS, 200), None);
    assert_eq!(try_get_message_type(Direction::SRVPRU, 1), None);
    assert_eq!(ctos::MessageType::Chat.into_u8(), 22);
    assert_eq!(ctos::MessageType::try_from_u8(36), Some(ctos::MessageType::HsKick));
}

#[test]
fn bodies_by_type() {
    let chat = stoc::Chat { name: 8, msg: vec![104, 105, 0] };
    let bytes = chat.serialize();
    match deserialize_struct_by_type(MessageType::STOC(stoc::MessageType::Chat), &bytes) {
        Some(Message::StocChat(c)) => {
            assert_eq!(c.name, 8);
            assert_eq!(c.msg, vec![104, 105, 0]);
        },
        _ => panic!("expected a chat"),
    }
    assert!(deserialize_struct_by_type(MessageType::CTOS(ctos::MessageType::Response), &[1, 2, 3]).is_none());
    assert!(deserialize_struct_by_type(MessageType::CTOS(ctos::MessageType::HandResult), &[]).is_none());
    match deserialize_struct_by_type(MessageType::CTOS(ctos::MessageType::HandResult), &[2, 99]) {
        Some(Message::CtosHandResult(h)) => assert_eq!(h.res, 2),
        _ => panic!("expected a hand result"),
    }
}

#[test]
fn headers_count_the_type_byte() {
    let body = vec![0u8; 300];
    let framed = wrap_data(MessageType::STOC(stoc::MessageType::Replay), &body);
    assert_eq!(&framed[0..3], &[45, 1, 23]);
    assert_eq!(framed.len(), 303);
    // A game message travels under the server-to-client game message type.
    let framed = wrap_data(MessageType::GM(gm::MessageType::Win), &[1]);
    assert_eq!(framed, vec![2, 0, 1, 1]);
    // A sequence is already framed and goes as it is.
    let seq_type = MessageType::SRVPRU(srvpru::srvpru::message::MessageType::StructSequence);
    assert_eq!(wrap_data(seq_type, &[7, 8]), vec![7, 8]);
    // The length field keeps sixteen bits.
    let big = vec![0u8; 65535];
    let framed = wrap_data(MessageType::STOC(stoc::MessageType::Replay), &big);
    assert_eq!(&framed[0..3], &[0, 0, 23]);
}

#[test]
fn mapped_structs_and_sequences() {
    let framed = wrap_mapped_struct(&ctos::HsReady);
    assert_eq!(framed, vec![1, 0, 34]);
    assert_eq!(ctos::HsReady::message(), MessageType::CTOS(ctos::MessageType::HsReady));
    let seq = MessageSequence {
        messages: vec![
            Message::StocTimeLimit(stoc::TimeLimit { player: Netplayer::Player1, left_time: 0 }),
            Message::CtosHsReady(ctos::HsReady),
        ],
    };
    assert_eq!(seq.serialize(), vec![4, 0, 24, 0, 0, 0, 1, 0, 34]);
    assert_eq!(MessageSequence::message(), MessageType::SRVPRU(srvpru::srvpru::message::MessageType::StructSequence));
}

#[test]
fn message_type_names() {
    assert_eq!(MessageType::CTOS(ctos::MessageType::JoinGame).to_string(), "CTOS JoinGame");
    assert_eq!(MessageType::GM(gm::MessageType::NewTurn).to_string(), "GM NewTurn");
    assert_eq!(MessageType::CTOS(ctos::MessageType::JoinGame).into_u8(), 18);
    assert_eq!(MessageType::GM(gm::MessageType::NewTurn).into_u8(), 1);
    assert_eq!(MessageType::GM(gm::MessageType::NewTurn).direction(), Direction::STOC);
}
