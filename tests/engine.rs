use r2_uploader::chunking::{choose_strategy, Strategy, CHUNK_SIZE};
use r2_uploader::engine::{EngineError, SlotDecision, UploadEngine, DEFAULT_POOL_SIZE};
use r2_uploader::store::put_content_request;
use r2_uploader::types::{File, UploadSource, UploadStatus};

fn request(id: &str, key: &str) -> File {
    File {
        id: id.to_string(),
        source: UploadSource::FileContent("hello".to_string()),
        remote_filename: key.to_string(),
    }
}

fn initial() -> UploadStatus {
    UploadStatus::Uploading { bytes_uploaded: 0, total_bytes: 0, speed: 0 }
}

fn sorted(mut v: Vec<(String, UploadStatus)>) -> Vec<(String, UploadStatus)> {
    v.sort_by(|a, b| a.0.cmp(&b.0));
    v
}

#[test]
fn submit_reports_initial_status() {
    let mut e = UploadEngine::new(DEFAULT_POOL_SIZE);
    assert_eq!(e.submit(&request("t1", "a.txt")), Ok(()));
    assert_eq!(e.status_of("t1"), Some(initial()));
    assert_eq!(e.submit(&request("t1", "b.txt")), Err(EngineError::AlreadySubmitted));
}

#[test]
fn cancel_unknown_id_is_not_found() {
    let mut e = UploadEngine::new(DEFAULT_POOL_SIZE);
    e.submit(&request("t1", "a.txt")).unwrap();
    assert_eq!(e.cancel_upload("unknown-id"), Err(EngineError::NotFound));
    assert_eq!(e.status_of("unknown-id"), None);
    assert_eq!(e.status_of("t1"), Some(initial()));
    assert!(!e.is_cancelled("t1"));
    assert_eq!(e.try_start("t1"), SlotDecision::Granted);
}

#[test]
fn pool_bounds_running_tasks() {
    let mut e = UploadEngine::new(2);
    for id in ["a", "b", "c", "d"] {
        e.submit(&request(id, id)).unwrap();
    }
    assert_eq!(e.try_start("a"), SlotDecision::Granted);
    assert_eq!(e.try_start("b"), SlotDecision::Granted);
    assert_eq!(e.try_start("c"), SlotDecision::Wait);
    assert_eq!(e.try_start("d"), SlotDecision::Wait);
    assert_eq!(e.try_start("a"), SlotDecision::Granted);
    assert!(e.finish("a", UploadStatus::Success));
    assert_eq!(e.try_start("c"), SlotDecision::Granted);
    assert_eq!(e.try_start("d"), SlotDecision::Wait);
    assert_eq!(e.try_start("zzz"), SlotDecision::Unknown);
}

#[test]
fn queued_task_cancelled_before_slot() {
    let mut e = UploadEngine::new(1);
    e.submit(&request("a", "a")).unwrap();
    e.submit(&request("b", "b")).unwrap();
    assert_eq!(e.try_start("a"), SlotDecision::Granted);
    assert_eq!(e.cancel_upload("b"), Ok(()));
    assert!(e.is_cancelled("b"));
    assert_eq!(e.try_start("b"), SlotDecision::Cancelled);
    assert_eq!(e.status_of("b"), Some(UploadStatus::Cancelled));
    assert_eq!(e.cancel_upload("b"), Err(EngineError::NotFound));
}

#[test]
fn finish_records_outcome_once() {
    let mut e = UploadEngine::new(1);
    e.submit(&request("a", "a")).unwrap();
    assert_eq!(e.try_start("a"), SlotDecision::Granted);
    e.set_upload_id("a", Some("u-1".to_string()));
    e.report_progress(
        "a",
        UploadStatus::Uploading { bytes_uploaded: 5, total_bytes: 10, speed: 1 },
    );
    assert_eq!(
        e.status_of("a"),
        Some(UploadStatus::Uploading { bytes_uploaded: 5, total_bytes: 10, speed: 1 })
    );
    e.set_upload_id("a", None);
    assert!(e.finish("a", UploadStatus::Success));
    assert!(!e.finish("a", UploadStatus::Cancelled));
    assert_eq!(e.status_of("a"), Some(UploadStatus::Success));
    e.report_progress("a", initial());
    assert_eq!(e.status_of("a"), Some(UploadStatus::Success));
}

#[test]
fn snapshot_prunes_terminal_statuses() {
    let mut e = UploadEngine::new(3);
    for id in ["ok", "bad", "gone", "busy"] {
        e.submit(&request(id, id)).unwrap();
    }
    e.finish("ok", UploadStatus::Success);
    e.finish(
        "bad",
        UploadStatus::Error { message: "boom".to_string(), code: "UPLOAD_ERROR".to_string() },
    );
    e.finish("gone", UploadStatus::Cancelled);
    let first = sorted(e.get_upload_status());
    assert_eq!(first.len(), 4);
    assert_eq!(first[0].0, "bad");
    assert_eq!(first[1], ("busy".to_string(), initial()));
    assert_eq!(first[2], ("gone".to_string(), UploadStatus::Cancelled));
    assert_eq!(first[3], ("ok".to_string(), UploadStatus::Success));
    let second = e.get_upload_status();
    assert_eq!(second, vec![("busy".to_string(), initial())]);
}

#[test]
fn inline_content_scenario() {
    let mut e = UploadEngine::new(DEFAULT_POOL_SIZE);
    let file = request("t-inline", "a.txt");
    e.submit(&file).unwrap();
    assert_eq!(e.try_start("t-inline"), SlotDecision::Granted);
    assert_eq!(choose_strategy(true, 5, CHUNK_SIZE), Strategy::SinglePut);
    let put = put_content_request("hello", "a.txt");
    assert_eq!(put.key, "a.txt");
    assert_eq!(put.content_type, "text/plain");
    assert_eq!(put.body, b"hello".to_vec());
    assert!(e.finish("t-inline", UploadStatus::Success));
    assert_eq!(e.status_of("t-inline"), Some(UploadStatus::Success));
}

#[test]
fn progress_never_goes_back() {
    let mut e = UploadEngine::new(1);
    e.submit(&request("a", "a")).unwrap();
    let at = |b: u64| UploadStatus::Uploading { bytes_uploaded: b, total_bytes: 20, speed: 0 };
    e.report_progress("a", at(10));
    e.report_progress("a", at(5));
    assert_eq!(e.status_of("a"), Some(at(10)));
    e.report_progress("a", at(20));
    assert_eq!(e.status_of("a"), Some(at(20)));
    e.report_progress("zzz", at(1));
    assert_eq!(e.status_of("zzz"), None);
}
