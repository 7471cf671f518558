use srvpru::srvpru::processor::{FrameScanner, ProcessorError};
use srvpru::ygopro::message::generate::wrap_data;
use srvpru::ygopro::message::{ctos, Direction, MessageType};

#[test]
fn wrap_then_scan_finds_the_message() {
    let body = [1u8, 2, 3];
    let framed = wrap_data(MessageType::CTOS(ctos::MessageType::Chat), &body);
    assert_eq!(framed, vec![4, 0, 22, 1, 2, 3]);
    let mut scanner = FrameScanner::new(Direction::CTOS);
    let frame = scanner.next(&framed).unwrap().unwrap();
    assert_eq!(frame.start, 0);
    assert_eq!(frame.end, 6);
    assert_eq!(frame.message_type, Some(MessageType::CTOS(ctos::MessageType::Chat)));
    assert_eq!(scanner.next(&framed), Ok(None));
}

#[test]
fn truncated_buffers_are_refused() {
    let mut scanner = FrameScanner::new(Direction::CTOS);
    assert_eq!(scanner.next(&[5]), Err(ProcessorError::BufferLength));
    let mut scanner = FrameScanner::new(Direction::CTOS);
    assert_eq!(scanner.next(&[5, 0]), Err(ProcessorError::ProtoLength));
    let mut scanner = FrameScanner::new(Direction::CTOS);
    assert_eq!(scanner.next(&[5, 0, 22, 1]), Err(ProcessorError::MessageLength));
}
