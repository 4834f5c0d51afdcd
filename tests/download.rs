use btb_launcher::progress::{percent, progress_for, Progress};
use btb_launcher::session::{is_success_status, Action, DownloadSession, Event, Failure, Stage};

fn started_session(total: Option<u64>) -> DownloadSession {
    let mut s = DownloadSession::new("https://example.org/pkg".to_string(), "/tmp/pkg".to_string());
    assert_eq!(s.step(Event::Begin { destination_exists: false }), Action::SendRequest);
    assert_eq!(
        s.step(Event::Response { status: 200, content_length: total }),
        Action::CreateFile
    );
    assert_eq!(s.step(Event::FileCreated), Action::ReadChunk);
    s
}

#[test]
fn thousand_bytes_in_four_chunks() {
    let mut s = started_session(Some(1000));
    let mut seen = Vec::new();
    for _ in 0..4 {
        seen.push(s.step(Event::Chunk { len: 250 }));
    }
    assert_eq!(
        seen,
        vec![
            Action::StoreChunk(Progress::Percent(25)),
            Action::StoreChunk(Progress::Percent(50)),
            Action::StoreChunk(Progress::Percent(75)),
            Action::StoreChunk(Progress::Percent(100)),
        ]
    );
    assert_eq!(s.step(Event::EndOfBody), Action::Complete);
    assert_eq!(s.written(), 1000);
    assert_eq!(s.stage(), Stage::Completed);
    assert_eq!(s.step(Event::EndOfBody), Action::Nothing);
}

#[test]
fn not_found_fails_before_the_file() {
    let mut s = DownloadSession::new("https://example.org/pkg".to_string(), "/tmp/pkg".to_string());
    assert_eq!(s.step(Event::Begin { destination_exists: false }), Action::SendRequest);
    assert_eq!(
        s.step(Event::Response { status: 404, content_length: Some(10) }),
        Action::Fail(Failure::Status(404))
    );
    assert_eq!(s.stage(), Stage::Failed);
    assert_eq!(s.total(), None);
    assert_eq!(s.step(Event::FileCreated), Action::Nothing);
    assert_eq!(s.step(Event::Chunk { len: 10 }), Action::Nothing);
    assert_eq!(s.step(Event::EndOfBody), Action::Nothing);
}

#[test]
fn existing_destination_is_left_alone() {
    let mut s = DownloadSession::new("https://example.org/pkg".to_string(), "/tmp/pkg".to_string());
    assert_eq!(s.step(Event::Begin { destination_exists: true }), Action::AlreadyPresent);
    assert_eq!(s.stage(), Stage::Completed);
    assert_eq!(s.written(), 0);
    assert_eq!(
        s.step(Event::Response { status: 200, content_length: Some(5) }),
        Action::Nothing
    );
    assert_eq!(s.step(Event::Begin { destination_exists: false }), Action::Nothing);
}

#[test]
fn unknown_size_reports_byte_counts() {
    let mut s = started_session(None);
    assert_eq!(s.step(Event::Chunk { len: 100 }), Action::StoreChunk(Progress::Bytes(100)));
    assert_eq!(s.step(Event::Chunk { len: 50 }), Action::StoreChunk(Progress::Bytes(150)));
    assert_eq!(s.step(Event::EndOfBody), Action::Complete);
    assert_eq!(s.written(), 150);
}

#[test]
fn zero_advertised_size_reports_byte_counts() {
    let mut s = started_session(Some(0));
    assert_eq!(s.step(Event::Chunk { len: 0 }), Action::ReadChunk);
    assert_eq!(s.step(Event::EndOfBody), Action::Complete);
    assert_eq!(s.written(), 0);
}

#[test]
fn empty_chunk_is_not_reported() {
    let mut s = started_session(Some(8));
    assert_eq!(s.step(Event::Chunk { len: 4 }), Action::StoreChunk(Progress::Percent(50)));
    assert_eq!(s.step(Event::Chunk { len: 0 }), Action::ReadChunk);
    assert_eq!(s.step(Event::Chunk { len: 4 }), Action::StoreChunk(Progress::Percent(100)));
    assert_eq!(s.step(Event::EndOfBody), Action::Complete);
}

#[test]
fn empty_body_of_known_size_is_truncated() {
    let mut s = started_session(Some(10));
    assert_eq!(
        s.step(Event::EndOfBody),
        Action::Fail(Failure::Truncated { advertised: 10, received: 0 })
    );
}

#[test]
fn short_body_is_truncated() {
    let mut s = started_session(Some(1000));
    assert_eq!(s.step(Event::Chunk { len: 400 }), Action::StoreChunk(Progress::Percent(40)));
    assert_eq!(
        s.step(Event::EndOfBody),
        Action::Fail(Failure::Truncated { advertised: 1000, received: 400 })
    );
    assert_eq!(s.stage(), Stage::Failed);
}

#[test]
fn long_body_overruns() {
    let mut s = started_session(Some(100));
    assert_eq!(s.step(Event::Chunk { len: 60 }), Action::StoreChunk(Progress::Percent(60)));
    assert_eq!(
        s.step(Event::Chunk { len: 41 }),
        Action::Fail(Failure::Overrun { advertised: 100 })
    );
    assert_eq!(s.written(), 60);
}

#[test]
fn unknown_size_past_the_counter_is_too_large() {
    let mut s = started_session(None);
    assert_eq!(
        s.step(Event::Chunk { len: u64::MAX }),
        Action::StoreChunk(Progress::Bytes(u64::MAX))
    );
    assert_eq!(s.step(Event::Chunk { len: 1 }), Action::Fail(Failure::TooLarge));
}

#[test]
fn transport_error_mid_stream_fails() {
    let mut s = started_session(Some(100));
    assert_eq!(s.step(Event::Chunk { len: 10 }), Action::StoreChunk(Progress::Percent(10)));
    assert_eq!(
        s.step(Event::TransportError("connection reset".to_string())),
        Action::Fail(Failure::Transport("connection reset".to_string()))
    );
    assert_eq!(s.step(Event::EndOfBody), Action::Nothing);
}

#[test]
fn filesystem_error_fails() {
    let mut s = DownloadSession::new("u".to_string(), "d".to_string());
    s.step(Event::Begin { destination_exists: false });
    s.step(Event::Response { status: 204, content_length: None });
    assert_eq!(
        s.step(Event::FilesystemError("permission denied".to_string())),
        Action::Fail(Failure::Filesystem("permission denied".to_string()))
    );
}

#[test]
fn event_out_of_order_fails() {
    let mut s = DownloadSession::new("u".to_string(), "d".to_string());
    assert_eq!(s.step(Event::Chunk { len: 1 }), Action::Fail(Failure::OutOfOrder));
    let mut t = started_session(Some(5));
    assert_eq!(
        t.step(Event::Begin { destination_exists: false }),
        Action::Fail(Failure::OutOfOrder)
    );
}

#[test]
fn session_keeps_its_endpoints() {
    let mut s = DownloadSession::new("https://example.org/a".to_string(), "/data/a".to_string());
    s.step(Event::Begin { destination_exists: false });
    assert_eq!(s.url(), "https://example.org/a");
    assert_eq!(s.destination(), "/data/a");
    assert_eq!(s.state().stage, Stage::Requested);
}

#[test]
fn percentages_round_to_nearest() {
    assert_eq!(percent(0, 5), 0);
    assert_eq!(percent(1, 3), 33);
    assert_eq!(percent(2, 3), 67);
    assert_eq!(percent(1, 2), 50);
    assert_eq!(percent(1, 200), 1);
    assert_eq!(percent(1, 201), 0);
    assert_eq!(percent(999, 1000), 100);
    assert_eq!(percent(u64::MAX, u64::MAX), 100);
    assert_eq!(percent(u64::MAX / 2, u64::MAX), 50);
}

#[test]
fn progress_kind_follows_total() {
    assert_eq!(progress_for(30, Some(60)), Progress::Percent(50));
    assert_eq!(progress_for(30, None), Progress::Bytes(30));
    assert_eq!(progress_for(0, Some(0)), Progress::Bytes(0));
}

#[test]
fn success_statuses() {
    assert!(!is_success_status(199));
    assert!(is_success_status(200));
    assert!(is_success_status(299));
    assert!(!is_success_status(300));
    assert!(!is_success_status(404));
}
