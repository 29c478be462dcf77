use telemetry_ingest::connection::{
    on_accept, AcceptAction, AcceptOutcome, Action, ConnectionHandler, ReadEvent,
};
use telemetry_ingest::frame::DecodeError;
use telemetry_ingest::line::{handle_line, LineAction};
use telemetry_ingest::record::encode_record;

fn line(text: &str) -> ReadEvent {
    ReadEvent::Line(text.to_string())
}

#[test]
fn scenario_valid_line_is_forwarded() {
    let mut h = ConnectionHandler::new();
    match h.on_event(line("FDF93380FC8AFD8057\r\n")) {
        Action::Line(LineAction::Forward(f)) => {
            assert_eq!(f.latitude_microdeg, -34_000_000);
            assert_eq!(f.longitude_microdeg, -58_000_000);
            assert_eq!(f.battery_level, 87);
        }
        other => panic!("unexpected {:?}", other),
    }
    assert!(h.is_open());
}

#[test]
fn scenario_short_frame_keeps_connection_open() {
    let mut h = ConnectionHandler::new();
    match h.on_event(line("FDF93380FC8AFD80\n")) {
        Action::Line(LineAction::Reject(e)) => assert_eq!(e, DecodeError::FrameLength { actual: 8 }),
        other => panic!("unexpected {:?}", other),
    }
    assert!(h.is_open());
    assert!(matches!(
        h.on_event(line("00000001FFFFFFFF00\n")),
        Action::Line(LineAction::Forward(_))
    ));
    assert!(h.is_open());
}

#[test]
fn scenario_blank_line_is_skipped() {
    let mut h = ConnectionHandler::new();
    for blank in ["", "\n", "  \t \r\n"] {
        assert!(matches!(h.on_event(line(blank)), Action::Line(LineAction::Skip)));
        assert!(h.is_open());
    }
}

#[test]
fn scenario_forward_failure_keeps_connection_open() {
    let mut h = ConnectionHandler::new();
    assert!(matches!(h.on_event(line("FDF93380FC8AFD8057")), Action::Line(LineAction::Forward(_))));
    match h.on_event(ReadEvent::ForwardFailed("connection refused".to_string())) {
        Action::ReportForwardError(m) => assert_eq!(m, "connection refused"),
        other => panic!("unexpected {:?}", other),
    }
    assert!(h.is_open());
    assert!(matches!(h.on_event(line("00000001FFFFFFFF00")), Action::Line(LineAction::Forward(_))));
}

#[test]
fn end_of_stream_closes() {
    let mut h = ConnectionHandler::new();
    assert!(matches!(h.on_event(ReadEvent::EndOfStream), Action::Close));
    assert!(!h.is_open());
}

#[test]
fn read_failure_ends_handler() {
    let mut h = ConnectionHandler::new();
    match h.on_event(ReadEvent::ReadFailed("reset by peer".to_string())) {
        Action::Fail(m) => assert_eq!(m, "reset by peer"),
        other => panic!("unexpected {:?}", other),
    }
    assert!(!h.is_open());
}

#[test]
fn surrounding_white_space_is_trimmed() {
    assert!(matches!(
        handle_line("\u{3000} FDF93380FC8AFD8057 \u{a0}"),
        LineAction::Forward(_)
    ));
    assert!(matches!(handle_line("\u{2003}"), LineAction::Skip));
}

#[test]
fn two_connections_do_not_mix_fields() {
    let mut a = ConnectionHandler::new();
    let mut b = ConnectionHandler::new();
    let fa = match a.on_event(line("FDF93380FC8AFD8057\n")) {
        Action::Line(LineAction::Forward(f)) => f,
        other => panic!("unexpected {:?}", other),
    };
    let fb = match b.on_event(line("00000001FFFFFFFF00\n")) {
        Action::Line(LineAction::Forward(f)) => f,
        other => panic!("unexpected {:?}", other),
    };
    let ra = String::from_utf8(encode_record(&fa)).unwrap();
    let rb = String::from_utf8(encode_record(&fb)).unwrap();
    assert!(ra.starts_with("telemetry lat=-34.000000,lon=-58.000000,battery=87 timestamp="));
    assert!(rb.starts_with("telemetry lat=0.000001,lon=-0.000001,battery=0 timestamp="));
}

#[test]
fn failed_accept_does_not_stop_the_loop() {
    let outcomes = vec![
        AcceptOutcome::Accepted,
        AcceptOutcome::Failed("too many open files".to_string()),
        AcceptOutcome::Accepted,
    ];
    let actions: Vec<AcceptAction> = outcomes.into_iter().map(on_accept).collect();
    assert!(matches!(actions[0], AcceptAction::Spawn));
    assert!(matches!(&actions[1], AcceptAction::Retry(m) if m == "too many open files"));
    assert!(matches!(actions[2], AcceptAction::Spawn));
}
