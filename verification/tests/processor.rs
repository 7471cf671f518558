use srvpru::srvpru::processor::{
    assemble_output, buffer_responses, decide_response, deserialize_message, needs_game_message_round, Frame, FrameResult, FrameScanner, Handler,
    HandlerCondition, HandlerOccasion, Processor, ProcessorError, Registry, Response,
};
use srvpru::srvpru::processor::ListenError;
use srvpru::srvpru::server::{after_process, after_read, AfterProcess, ConnectionStep, ReadOutcome, Server};
use srvpru::ygopro::message::utils::Message;
use srvpru::ygopro::message::{ctos, stoc, Direction, MessageType};

fn chat() -> HandlerCondition {
    HandlerCondition::MessageType(MessageType::CTOS(ctos::MessageType::Chat))
}

#[test]
fn conditions() {
    let t = Some(MessageType::CTOS(ctos::MessageType::Chat));
    assert!(HandlerCondition::Always.meet(None, false));
    assert!(chat().meet(t, false));
    assert!(!chat().meet(None, true));
    assert!(!chat().meet(Some(MessageType::CTOS(ctos::MessageType::HsReady)), true));
    assert!(HandlerCondition::Dynamic.meet(None, true));
    assert!(!HandlerCondition::Dynamic.meet(t, false));
}

#[test]
fn handlers_run_by_priority_keeping_order() {
    let mut p = Processor::new(Direction::CTOS);
    p.add_handler(Handler::new(5, "b", HandlerOccasion::Before, HandlerCondition::Always));
    p.add_handler(Handler::new(1, "a", HandlerOccasion::Before, HandlerCondition::Always));
    p.add_handler(Handler::new(5, "c", HandlerOccasion::Before, HandlerCondition::Always));
    p.add_handler(Handler::new(0, "z", HandlerOccasion::After, HandlerCondition::Always));
    p.add_handler(Handler::new(0, "never", HandlerOccasion::Never, HandlerCondition::Always));
    p.prepare();
    let names: Vec<&str> = p.handlers(HandlerOccasion::Before).iter().map(|h| h.name()).collect();
    assert_eq!(names, vec!["a", "b", "c"]);
    assert_eq!(p.handlers(HandlerOccasion::After).len(), 1);
    assert_eq!(p.handlers(HandlerOccasion::Never).len(), 0);
}

#[test]
fn handlers_are_shown() {
    let h = Handler::new(7, "welcome", HandlerOccasion::After, chat());
    assert_eq!(h.to_string(), "[  7][              -] welcome");
    let mut p = Processor::new(Direction::CTOS);
    p.add_handler(Handler::new(1, "a", HandlerOccasion::Before, HandlerCondition::Always));
    p.add_handler(Handler::new(2, "t", HandlerOccasion::Before, chat()));
    p.add_handler(Handler::new(3, "u", HandlerOccasion::After, chat()));
    p.add_handler(Handler::new(4, "d", HandlerOccasion::After, HandlerCondition::Dynamic));
    let text = p.to_string(0);
    let expected = "Processor [CTOS]\n  Always trigger\n  [  1][              -] a\n\n  Custom trigger\n  [  4][              -] d\n\n  [CTOS Chat]\n  [  2][              -] t\n  --------- MESSAGE SENT ---------\n  [  3][              -] u\n\n";
    assert_eq!(text, expected);
    assert_eq!(p.to_listing(2), "  [  1][              -] a\n  [  2][              -] t\n  [  3][              -] u\n  [  4][              -] d\n");
}

#[test]
fn registry_and_server() {
    let mut registry = Registry::new();
    Handler::new(3, "x", HandlerOccasion::Before, chat()).register_for_plugin("plug", &mut registry);
    Handler::new(1, "y", HandlerOccasion::Before, HandlerCondition::MessageType(MessageType::STOC(stoc::MessageType::Chat))).register_for_plugin("plug", &mut registry);
    Handler::new(2, "z", HandlerOccasion::After, HandlerCondition::Always).register(&mut registry);
    Handler::new(9, "dyn", HandlerOccasion::Before, HandlerCondition::Dynamic).register_for_plugin("plug", &mut registry);
    Handler::register_dependencies("plug", vec!["other", "z"], &mut registry);
    let mut server = Server::new();
    let missing = server.register_handlers(&["plug"], &["z", "nothing"], &[], &[], &mut registry);
    assert_eq!(missing, vec![("plug".to_string(), "other".to_string())]);
    let ctos_before: Vec<&str> = server.ctos_processor.handlers(HandlerOccasion::Before).iter().map(|h| h.name()).collect();
    assert_eq!(ctos_before, vec!["x"]);
    assert_eq!(server.ctos_processor.handlers(HandlerOccasion::Before)[0].owner(), Some("plug"));
    let ctos_after: Vec<&str> = server.ctos_processor.handlers(HandlerOccasion::After).iter().map(|h| h.name()).collect();
    assert_eq!(ctos_after, vec!["z"]);
    let stoc_before: Vec<&str> = server.stoc_processor.handlers(HandlerOccasion::Before).iter().map(|h| h.name()).collect();
    assert_eq!(stoc_before, vec!["y"]);
    assert!(server.to_string().starts_with("\nsrvpru socket server\n  CTOS processors:\n    [  3][           plug] x\n"));
}

#[test]
fn unchanged_buffers_go_as_they_came() {
    let data = [2u8, 0, 34, 9, 1, 0, 35];
    let frames = [
        Frame { start: 0, end: 4, message_type: Some(MessageType::CTOS(ctos::MessageType::HsReady)) },
        Frame { start: 4, end: 7, message_type: Some(MessageType::CTOS(ctos::MessageType::HsNotReady)) },
    ];
    assert_eq!(assemble_output(&data, &frames, &[Response::NoChange, Response::NoChange]), data.to_vec());
    assert_eq!(assemble_output(&data, &frames, &[Response::Skip, Response::NoChange]), vec![1, 0, 35]);
    assert_eq!(assemble_output(&data, &frames, &[Response::Value(vec![7]), Response::Skip]), vec![7]);
}

#[test]
fn scanning_a_buffer() {
    let data = [2u8, 0, 34, 9, 1, 0, 35];
    let mut scanner = FrameScanner::new(Direction::CTOS);
    let a = scanner.next(&data).unwrap().unwrap();
    assert_eq!((a.start, a.end), (0, 4));
    let b = scanner.next(&data).unwrap().unwrap();
    assert_eq!((b.start, b.end), (4, 7));
    assert_eq!(scanner.next(&data), Ok(None));
    assert!(scanner.at_empty_message(&data) == false);
    assert!(FrameScanner::new(Direction::CTOS).at_empty_message(&[0, 0, 1]));
}

#[test]
fn too_many_messages() {
    let data: Vec<u8> = std::iter::repeat([1u8, 0, 34]).take(1002).flatten().collect();
    let mut scanner = FrameScanner::new(Direction::CTOS);
    for _ in 0..1001 {
        assert!(scanner.next(&data).unwrap().is_some());
    }
    assert_eq!(scanner.next(&data), Err(ProcessorError::Oversize));
}

#[test]
fn responses() {
    let m = Message::CtosHandResult(ctos::HandResult { res: 1 });
    let t = Some(MessageType::CTOS(ctos::MessageType::HandResult));
    match decide_response(true, Some(&m), t, false) {
        Response::Value(v) => assert_eq!(v, vec![2, 0, 3, 1]),
        _ => panic!("expected new bytes"),
    }
    assert!(matches!(decide_response(true, None, t, false), Response::Skip));
    assert!(matches!(decide_response(true, Some(&m), None, false), Response::NoChange));
    assert!(matches!(decide_response(false, Some(&m), t, true), Response::Skip));
    assert!(matches!(decide_response(false, None, t, false), Response::NoChange));
    assert!(needs_game_message_round(false, Some(MessageType::STOC(stoc::MessageType::GameMessage))));
    assert!(!needs_game_message_round(true, Some(MessageType::STOC(stoc::MessageType::GameMessage))));
    match deserialize_message(t, &[2, 0, 3, 2]) {
        Some(Message::CtosHandResult(h)) => assert_eq!(h.res, 2),
        _ => panic!("expected a hand result"),
    }
    assert!(deserialize_message(None, &[2, 0, 3, 2]).is_none());
}

#[test]
fn a_buffer_goes_on_whole_or_not_at_all() {
    let ok = buffer_responses(vec![FrameResult::Done(Response::Skip), FrameResult::FailedBlocked, FrameResult::Done(Response::Value(vec![1]))], None).unwrap();
    assert_eq!(ok.len(), 3);
    assert!(matches!(ok[0], Response::Skip));
    assert!(matches!(ok[1], Response::NoChange));
    assert!(matches!(&ok[2], Response::Value(v) if v == &vec![1u8]));
    let failed = buffer_responses(vec![FrameResult::Done(Response::Skip), FrameResult::FailedUnblocked], None);
    assert_eq!(failed.unwrap_err(), ProcessorError::ErrorAbort);
    let cut = buffer_responses(vec![FrameResult::Done(Response::NoChange)], Some(ProcessorError::MessageLength));
    assert_eq!(cut.unwrap_err(), ProcessorError::MessageLength);
    assert!(buffer_responses(Vec::new(), None).unwrap().is_empty());
}

#[test]
fn what_a_connection_does_after_a_read() {
    assert_eq!(after_read(ReadOutcome::TimedOut, true), ConnectionStep::Wait);
    assert_eq!(after_read(ReadOutcome::TimedOut, false), ConnectionStep::Fail(ListenError::Timeout));
    assert_eq!(after_read(ReadOutcome::Failed, true), ConnectionStep::Fail(ListenError::Drop));
    assert_eq!(after_read(ReadOutcome::Closed, false), ConnectionStep::End);
    assert_eq!(after_read(ReadOutcome::Data(10241), false), ConnectionStep::Oversize);
    assert_eq!(after_read(ReadOutcome::Data(3), false), ConnectionStep::Process(3));
    assert_eq!(after_process(Ok(())), AfterProcess::Continue);
    assert_eq!(after_process(Err(ProcessorError::Abort)), AfterProcess::ReportAndExpel(ProcessorError::Abort));
    assert_eq!(after_process(Err(ProcessorError::MessageLength)), AfterProcess::Report(ProcessorError::MessageLength));
}
