use upload_ingest::reply::{guard_outcome, reply_for, UploadConfig, UploadTimeout};
use upload_ingest::session::{Action, Event, FailureKind, Stage, UploadOutcome, UploadSession};

fn ready(root: &str, id: &str, category: &str) -> UploadSession {
    let (mut s, first) = UploadSession::start(root, id, category);
    assert_eq!(first, Action::EnsureDirectory(root.to_string()));
    assert_eq!(s.stage(), Stage::EnsuringDirectory);
    assert_eq!(s.step(Event::DirectoryReady), Action::NextField);
    s
}

#[test]
fn chunks_are_appended_in_order() {
    let mut s = ready("./uploads", "1", "t");
    let a = s.step(Event::FieldArrived(Some("data.bin".to_string())));
    assert_eq!(a, Action::CreateFile("./uploads/data-1-t.bin".to_string()));
    let mut file: Vec<u8> = Vec::new();
    for chunk in [b"abc".to_vec(), b"def".to_vec()] {
        assert!(s.accepts(&Event::ChunkArrived(chunk.clone())));
        match s.step(Event::ChunkArrived(chunk)) {
            Action::Append(bytes) => file.extend_from_slice(&bytes),
            other => panic!("unexpected action {:?}", other),
        }
    }
    assert_eq!(file, b"abcdef".to_vec());
    assert_eq!(s.field_bytes(), 6);
    assert_eq!(s.step(Event::FieldEnded), Action::NextField);
    assert_eq!(s.files_written(), 1);
    assert_eq!(s.step(Event::FieldsExhausted), Action::Finish(UploadOutcome::Success(1)));
}

#[test]
fn empty_request_is_no_files_written() {
    let mut s = ready("./uploads", "1", "t");
    let a = s.step(Event::FieldsExhausted);
    assert_eq!(a, Action::Finish(UploadOutcome::NoFilesWritten));
    assert_eq!(s.stage(), Stage::Finished(UploadOutcome::NoFilesWritten));
    let rep = reply_for(guard_outcome(Some(UploadOutcome::NoFilesWritten)));
    assert_eq!(rep.status, 400);
    assert_eq!(rep.body, "No file uploaded");
}

#[test]
fn deadline_gives_gateway_timeout() {
    let r = guard_outcome(None);
    assert_eq!(r, Err(UploadTimeout));
    let rep = reply_for(r);
    assert_eq!(rep.status, 504);
    assert_eq!(rep.body, "Upload timed out");
}

#[test]
fn in_time_outcome_passes_unchanged() {
    assert_eq!(guard_outcome(Some(UploadOutcome::Success(3))), Ok(UploadOutcome::Success(3)));
    let rep = reply_for(Ok(UploadOutcome::Success(3)));
    assert_eq!(rep.status, 200);
    assert_eq!(rep.body, "File uploaded successfully");
}

#[test]
fn concurrent_sessions_keep_their_own_bytes() {
    let mut s1 = ready("./uploads", "a", "x");
    let mut s2 = ready("./uploads", "b", "y");
    let first_path = s1.step(Event::FieldArrived(Some("f.txt".to_string())));
    let second_path = s2.step(Event::FieldArrived(Some("g.txt".to_string())));
    assert_eq!(first_path, Action::CreateFile("./uploads/f-a-x.txt".to_string()));
    assert_eq!(second_path, Action::CreateFile("./uploads/g-b-y.txt".to_string()));
    assert_eq!(s1.step(Event::ChunkArrived(b"one".to_vec())), Action::Append(b"one".to_vec()));
    assert_eq!(s2.step(Event::ChunkArrived(b"two".to_vec())), Action::Append(b"two".to_vec()));
    assert_eq!(s1.step(Event::ChunkArrived(b"1".to_vec())), Action::Append(b"1".to_vec()));
    assert_eq!(s1.field_bytes(), 4);
    assert_eq!(s2.field_bytes(), 3);
    s1.step(Event::FieldEnded);
    s2.step(Event::FieldEnded);
    assert_eq!(s1.step(Event::FieldsExhausted), Action::Finish(UploadOutcome::Success(1)));
    assert_eq!(s2.step(Event::FieldsExhausted), Action::Finish(UploadOutcome::Success(1)));
}

#[test]
fn round_trip_report_pdf() {
    let mut s = ready("./uploads", "42", "final");
    let a = s.step(Event::FieldArrived(Some("report.PDF".to_string())));
    assert_eq!(a, Action::CreateFile("./uploads/report-42-final.PDF".to_string()));
    let body = b"%PDF-1.4 binary \x00\xff".to_vec();
    assert_eq!(s.step(Event::ChunkArrived(body.clone())), Action::Append(body));
    s.step(Event::FieldEnded);
    assert_eq!(s.step(Event::FieldsExhausted), Action::Finish(UploadOutcome::Success(1)));
}

#[test]
fn field_without_file_name_uses_placeholder() {
    let mut s = ready("./uploads", "42", "final");
    let a = s.step(Event::FieldArrived(None));
    assert_eq!(a, Action::CreateFile("./uploads/unnamed_file-42-final".to_string()));
}

#[test]
fn two_fields_counted() {
    let mut s = ready("up", "1", "c");
    for name in ["a.txt", "b.txt"] {
        s.step(Event::FieldArrived(Some(name.to_string())));
        s.step(Event::ChunkArrived(vec![1, 2]));
        assert_eq!(s.step(Event::FieldEnded), Action::NextField);
    }
    assert_eq!(s.step(Event::FieldsExhausted), Action::Finish(UploadOutcome::Success(2)));
}

#[test]
fn new_field_resets_byte_count() {
    let mut s = ready("up", "1", "c");
    s.step(Event::FieldArrived(Some("a".to_string())));
    s.step(Event::ChunkArrived(vec![0; 10]));
    s.step(Event::FieldEnded);
    s.step(Event::FieldArrived(Some("b".to_string())));
    assert_eq!(s.field_bytes(), 0);
}

#[test]
fn directory_failure_is_storage_unavailable() {
    let (mut s, _) = UploadSession::start("./uploads", "1", "t");
    let a = s.step(Event::DirectoryFailed);
    let o = UploadOutcome::Failure(FailureKind::StorageUnavailable);
    assert_eq!(a, Action::Finish(o));
    let rep = reply_for(Ok(o));
    assert_eq!(rep.status, 500);
    assert_eq!(rep.body, "Failed to create uploads directory");
}

#[test]
fn write_failure_aborts_request() {
    let mut s = ready("./uploads", "1", "t");
    s.step(Event::FieldArrived(Some("a.txt".to_string())));
    s.step(Event::FieldEnded);
    s.step(Event::FieldArrived(Some("b.txt".to_string())));
    let o = UploadOutcome::Failure(FailureKind::Io);
    assert_eq!(s.step(Event::IoFailed), Action::Finish(o));
    assert_eq!(s.files_written(), 1);
    let rep = reply_for(Ok(o));
    assert_eq!(rep.status, 500);
    assert_eq!(rep.body, "Failed to write to file");
}

#[test]
fn decode_failure_is_client_error() {
    let mut s = ready("./uploads", "1", "t");
    let o = UploadOutcome::Failure(FailureKind::Decode);
    assert_eq!(s.step(Event::DecodeFailed), Action::Finish(o));
    let rep = reply_for(Ok(o));
    assert_eq!(rep.status, 400);
    assert_eq!(rep.body, "Malformed multipart body");
}

#[test]
fn events_out_of_place_are_not_accepted() {
    let (mut s, _) = UploadSession::start("./uploads", "1", "t");
    assert!(!s.accepts(&Event::FieldsExhausted));
    assert!(!s.accepts(&Event::ChunkArrived(vec![1])));
    s.step(Event::DirectoryReady);
    assert!(!s.accepts(&Event::FieldEnded));
    assert!(s.accepts(&Event::FieldArrived(None)));
    s.step(Event::FieldsExhausted);
    assert!(!s.accepts(&Event::DecodeFailed));
    assert!(!s.accepts(&Event::DirectoryReady));
}

#[test]
fn standard_config() {
    let c = UploadConfig::standard();
    assert_eq!(c.root, "./uploads");
    assert_eq!(c.deadline_secs, 3600);
    assert_eq!(c.payload_limit, 10 * 1024 * 1024 * 1024);
    let d = UploadConfig::standard().with_deadline_secs(5);
    assert_eq!(d.deadline_secs, 5);
    assert_eq!(d.root, "./uploads");
}
