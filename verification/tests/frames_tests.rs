use ws_client::console::render_report;
use ws_client::frames::{handle_frame, ReadEvent, Report};

#[test]
fn text_frame_is_reported_verbatim() {
    let step = handle_frame(ReadEvent::Text("ping".to_string()));
    assert!(!step.done);
    assert_eq!(step.report, Some(Report::ReceivedText("ping".to_string())));
    let line = render_report(&step.report.unwrap());
    assert_eq!(line, "Received: ping");
}

#[test]
fn binary_frame_is_reported_by_byte_length_only() {
    let payload: Vec<u8> = vec![0xAB; 16];
    let step = handle_frame(ReadEvent::Binary(payload));
    assert!(!step.done);
    assert_eq!(step.report, Some(Report::ReceivedBinary(16)));
    let line = render_report(&step.report.unwrap());
    assert_eq!(line, "Received binary data: 16 bytes");
    assert!(!line.contains('\u{AB}'));
}

#[test]
fn empty_binary_frame_reports_zero_bytes() {
    let step = handle_frame(ReadEvent::Binary(Vec::new()));
    assert_eq!(step.report, Some(Report::ReceivedBinary(0)));
    assert_eq!(
        render_report(&step.report.unwrap()),
        "Received binary data: 0 bytes"
    );
}

#[test]
fn close_frame_terminates_the_read_task() {
    let step = handle_frame(ReadEvent::CloseFrame);
    assert!(step.done);
    assert_eq!(step.report, Some(Report::ClosedByServer));
    assert_eq!(
        render_report(&step.report.unwrap()),
        "Connection closed by server"
    );
}

#[test]
fn transport_error_is_reported_and_terminates_the_read_task() {
    let step = handle_frame(ReadEvent::TransportError("connection reset".to_string()));
    assert!(step.done);
    assert_eq!(
        step.report,
        Some(Report::ReceiveFailed("connection reset".to_string()))
    );
    assert_eq!(
        render_report(&step.report.unwrap()),
        "Error receiving message: connection reset"
    );
}

#[test]
fn other_frames_are_ignored_silently() {
    let step = handle_frame(ReadEvent::Other);
    assert!(!step.done);
    assert_eq!(step.report, None);
}

#[test]
fn end_of_stream_terminates_the_read_task_silently() {
    let step = handle_frame(ReadEvent::End);
    assert!(step.done);
    assert_eq!(step.report, None);
}
