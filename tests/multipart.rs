use r2_uploader::multipart::{
    should_emit, transfer_speed, Action, ChunkedUpload, Event, Phase, PROGRESS_INTERVAL_MS,
};
use r2_uploader::types::UploadStatus;

const MIB: u64 = 1024 * 1024;

fn done(s: &str) -> Event {
    Event::Done(s.to_string())
}

fn failed(s: &str) -> Event {
    Event::Failed(s.to_string())
}

/// Opens the session and uploads `k` parts, returning the progression of
/// uploaded bytes.
fn open_and_upload(m: &mut ChunkedUpload, k: usize) -> Vec<u64> {
    assert_eq!(m.next_action(false), Action::CreateSession);
    m.on_event(done("upload-1"));
    let mut seen = Vec::new();
    for _ in 0..k {
        match m.next_action(false) {
            Action::UploadPart { part_number, offset, .. } => {
                assert_eq!(offset, m.bytes_uploaded);
                m.on_event(Event::Done(format!("etag-{}", part_number)));
                seen.push(m.bytes_uploaded);
            }
            other => panic!("unexpected action {:?}", other),
        }
    }
    seen
}

#[test]
fn twelve_mib_in_three_parts() {
    let mut m = ChunkedUpload::new(12 * MIB, 5 * MIB);
    assert_eq!(m.next_action(false), Action::CreateSession);
    m.on_event(done("upload-1"));
    assert_eq!(m.upload_id().as_deref(), Some("upload-1"));
    let mut plan = Vec::new();
    let mut progression = Vec::new();
    loop {
        match m.next_action(false) {
            Action::UploadPart { part_number, offset, len } => {
                plan.push((part_number, offset, len));
                m.on_event(Event::Done(format!("etag-{}", part_number)));
                progression.push(m.bytes_uploaded);
            }
            Action::Complete => {
                assert_eq!(m.phase, Phase::Completing);
                m.on_event(done(""));
            }
            Action::Finish => break,
            other => panic!("unexpected action {:?}", other),
        }
    }
    assert_eq!(
        plan,
        vec![(1, 0, 5 * MIB), (2, 5 * MIB, 5 * MIB), (3, 10 * MIB, 2 * MIB)]
    );
    assert_eq!(progression, vec![5 * MIB, 10 * MIB, 12 * MIB]);
    let numbers: Vec<u64> = m.parts().iter().map(|p| p.part_number).collect();
    assert_eq!(numbers, vec![1, 2, 3]);
    assert_eq!(m.parts()[2].e_tag, "etag-3");
    assert_eq!(m.outcome(), Some(UploadStatus::Success));
}

#[test]
fn cancel_before_session_opens() {
    let mut m = ChunkedUpload::new(12 * MIB, 5 * MIB);
    assert_eq!(m.next_action(true), Action::Finish);
    assert!(m.parts().is_empty());
    assert!(m.upload_id().is_none());
    assert_eq!(m.outcome(), Some(UploadStatus::Cancelled));
}

#[test]
fn cancel_before_first_chunk() {
    let mut m = ChunkedUpload::new(12 * MIB, 5 * MIB);
    open_and_upload(&mut m, 0);
    assert_eq!(m.next_action(true), Action::Abort);
    m.on_event(done(""));
    assert!(m.parts().is_empty());
    assert_eq!(m.outcome(), Some(UploadStatus::Cancelled));
    assert_eq!(m.next_action(false), Action::Finish);
}

#[test]
fn cancel_after_two_of_three_parts() {
    let mut m = ChunkedUpload::new(12 * MIB, 5 * MIB);
    let seen = open_and_upload(&mut m, 2);
    assert_eq!(seen, vec![5 * MIB, 10 * MIB]);
    assert_eq!(m.next_action(true), Action::Abort);
    m.on_event(done(""));
    assert_eq!(m.parts().len(), 2);
    assert_eq!(m.outcome(), Some(UploadStatus::Cancelled));
    assert_eq!(m.next_action(true), Action::Finish);
    assert_eq!(m.next_action(false), Action::Finish);
}

#[test]
fn failed_abort_still_cancelled() {
    let mut m = ChunkedUpload::new(12 * MIB, 5 * MIB);
    open_and_upload(&mut m, 1);
    assert_eq!(m.next_action(true), Action::Abort);
    m.on_event(failed("NoSuchUpload"));
    assert_eq!(m.outcome(), Some(UploadStatus::Cancelled));
    assert_eq!(m.parts().len(), 1);
}

#[test]
fn failed_part_aborts_then_errors() {
    let mut m = ChunkedUpload::new(12 * MIB, 5 * MIB);
    open_and_upload(&mut m, 1);
    assert!(matches!(m.next_action(false), Action::UploadPart { part_number: 2, .. }));
    m.on_event(failed("connection reset"));
    assert_eq!(m.phase, Phase::Aborting);
    assert_eq!(m.next_action(false), Action::Abort);
    m.on_event(done(""));
    assert_eq!(
        m.outcome(),
        Some(UploadStatus::Error {
            message: "connection reset".to_string(),
            code: "UPLOAD_ERROR".to_string()
        })
    );
}

#[test]
fn failed_session_open_is_error() {
    let mut m = ChunkedUpload::new(6 * MIB, 5 * MIB);
    assert_eq!(m.next_action(false), Action::CreateSession);
    m.on_event(failed("Failed to get upload ID"));
    assert_eq!(m.next_action(false), Action::Finish);
    assert_eq!(
        m.outcome(),
        Some(UploadStatus::Error {
            message: "Failed to get upload ID".to_string(),
            code: "UPLOAD_ERROR".to_string()
        })
    );
}

#[test]
fn failed_complete_is_error_without_abort() {
    let mut m = ChunkedUpload::new(5 * MIB, 5 * MIB);
    open_and_upload(&mut m, 1);
    assert_eq!(m.next_action(false), Action::Complete);
    m.on_event(failed("InvalidPart"));
    assert_eq!(m.next_action(false), Action::Finish);
    assert!(matches!(m.outcome(), Some(UploadStatus::Error { .. })));
}

#[test]
fn outcome_pending_while_running() {
    let mut m = ChunkedUpload::new(12 * MIB, 5 * MIB);
    assert_eq!(m.outcome(), None);
    open_and_upload(&mut m, 1);
    assert_eq!(m.outcome(), None);
}

#[test]
fn progress_report() {
    let mut m = ChunkedUpload::new(12 * MIB, 5 * MIB);
    open_and_upload(&mut m, 2);
    assert_eq!(
        m.progress(2000),
        UploadStatus::Uploading {
            bytes_uploaded: 10 * MIB,
            total_bytes: 12 * MIB,
            speed: 5 * MIB
        }
    );
}

#[test]
fn speed_values() {
    assert_eq!(transfer_speed(5000, 2000), 2500);
    assert_eq!(transfer_speed(5000, 0), 0);
    assert_eq!(transfer_speed(7, 3), 2333);
    assert_eq!(transfer_speed(u64::MAX, 1), u64::MAX);
}

#[test]
fn progress_throttle() {
    assert!(should_emit(None, 0));
    assert!(!should_emit(Some(1000), 1000 + PROGRESS_INTERVAL_MS - 1));
    assert!(should_emit(Some(1000), 1000 + PROGRESS_INTERVAL_MS));
    assert!(!should_emit(Some(1000), 10));
}
