use file_vault::deletion::{DeleteOutcome, DeletionAction, DeletionCoordinator, DeletionEvent, DeletionState};
use file_vault::download::{after_check, after_lookup, DownloadOutcome, DownloadStep};
use file_vault::entry::{Entry, Timestamp};
use file_vault::storage::{DeleteFileResult, LocalStorage, WriteFileResult};
use file_vault::upload::{
    write_finished, UploadAction, UploadError, UploadEvent, UploadFailure, UploadOutcome,
    UploadSession, UploadState,
};

fn start(name: &str, bytes: &[u8]) -> UploadSession {
    UploadSession::begin(true, Some(name.to_string()), Some(bytes.to_vec()), "10.0.0.1".to_string())
        .expect("valid upload request")
}

fn committed_entry(s: &UploadSession) -> Entry {
    match &s.state {
        UploadState::Committing(e) => e.clone(),
        other => panic!("not committing: {:?}", other),
    }
}

#[test]
fn upload_download_delete_scenario() {
    let storage = LocalStorage::new("/srv/blobs".to_string());
    let s = start("a.txt", b"5");
    assert_eq!(s.action(), UploadAction::ReadNext);

    let (s, a) = s.step(UploadEvent::Chunk(b"hello".to_vec()));
    assert_eq!(a, UploadAction::Forward(b"hello".to_vec()));
    let (s, a) = s.step(UploadEvent::StreamEnded);
    assert_eq!(a, UploadAction::AwaitWriter);
    let ev = write_finished(WriteFileResult::Success);
    assert!(matches!(ev, UploadEvent::BlobWritten(_)));
    let (s, a) = s.step(ev);
    assert_eq!(a, UploadAction::Insert);
    let entry = committed_entry(&s);
    assert_eq!(entry.file_name, "a.txt");
    assert_eq!(entry.file_size, 5);
    assert_eq!(entry.uuid, s.id);
    assert_eq!(entry.source_ip, "10.0.0.1");
    let (s, a) = s.step(UploadEvent::Inserted);
    assert_eq!(a, UploadAction::Respond);
    let id = s.id;
    match &s.state {
        UploadState::Done(o) => {
            assert_eq!(*o, UploadOutcome::Committed(id));
            assert_eq!(o.status(), 200);
        }
        other => panic!("not done: {:?}", other),
    }

    match after_lookup(&storage, id, Ok(Some(entry.clone()))) {
        DownloadStep::CheckBlob { file_name, path } => {
            assert_eq!(file_name, "a.txt");
            assert_eq!(path, format!("/srv/blobs/{}", uuid_text(id)));
            let out = after_check(file_name, path.clone(), true);
            assert_eq!(out, DownloadOutcome::Found { file_name: "a.txt".to_string(), path });
            assert_eq!(out.status(), 200);
        }
        other => panic!("unexpected step: {:?}", other),
    }

    let d = DeletionCoordinator::new(id);
    assert_eq!(d.action(), DeletionAction::LookUp);
    let d = d.step(DeletionEvent::LookedUp(Ok(Some(entry))));
    assert_eq!(d.action(), DeletionAction::RemoveRow);
    let d = d.step(DeletionEvent::RowRemoved(Ok(true)));
    assert_eq!(d.action(), DeletionAction::RemoveBlob);
    let d = d.step(DeletionEvent::BlobRemoved(DeleteFileResult::Success));
    assert_eq!(d.action(), DeletionAction::Respond);
    match &d.state {
        DeletionState::Done(o) => {
            assert_eq!(*o, DeleteOutcome::Deleted);
            assert_eq!(o.status(), 200);
            assert_eq!(o.message(), "Entry deleted");
        }
        other => panic!("not done: {:?}", other),
    }

    let gone = after_lookup(&storage, id, Ok(None));
    assert_eq!(gone, DownloadStep::Finished(DownloadOutcome::EntryMissing));
    assert_eq!(DownloadOutcome::EntryMissing.status(), 404);
    let d = DeletionCoordinator::new(id).step(DeletionEvent::LookedUp(Ok(None)));
    match &d.state {
        DeletionState::Done(o) => {
            assert_eq!(*o, DeleteOutcome::NotFound);
            assert_eq!(o.status(), 404);
            assert_eq!(o.message(), "Entry not found");
        }
        other => panic!("not done: {:?}", other),
    }
}

fn uuid_text(id: u128) -> String {
    let h = format!("{:032x}", id);
    format!("{}-{}-{}-{}-{}", &h[0..8], &h[8..12], &h[12..16], &h[16..20], &h[20..32])
}

#[test]
fn upload_without_filename_is_rejected() {
    let r = UploadSession::begin(true, None, Some(b"5".to_vec()), "10.0.0.1".to_string());
    let e = r.err().expect("rejected");
    assert_eq!(e, UploadError::NoFilename);
    assert_eq!(e.status(), 400);
    assert_eq!(e.message(), "No filename provided");
}

#[test]
fn upload_request_checks_in_order() {
    let ip = "x".to_string();
    assert_eq!(UploadSession::begin(false, None, None, ip.clone()).err(), Some(UploadError::NoFile));
    assert_eq!(
        UploadSession::begin(true, Some("f".to_string()), None, ip.clone()).err(),
        Some(UploadError::MissingLength)
    );
    assert_eq!(
        UploadSession::begin(true, Some("f".to_string()), Some(b"12a".to_vec()), ip.clone()).err(),
        Some(UploadError::InvalidLength)
    );
    assert_eq!(UploadError::NoFile.message(), "No file in request");
    assert_eq!(UploadError::MissingLength.message(), "Content-Length header required");
    assert_eq!(UploadError::InvalidLength.message(), "Invalid Content-Length header");
}

#[test]
fn upload_ids_are_random_version_four() {
    let a = start("f", b"1");
    let b = start("f", b"1");
    assert_eq!((a.id >> 76) & 0xf, 4);
    assert_eq!((a.id >> 62) & 0x3, 2);
    assert_ne!(a.id, b.id);
}

#[test]
fn streamed_chunks_are_forwarded_in_order() {
    let mut s = start("b.bin", b"+5");
    assert_eq!(s.file_size, 5);
    let mut forwarded: Vec<u8> = Vec::new();
    for chunk in [b"hel".to_vec(), Vec::new(), b"lo".to_vec()] {
        let (next, a) = s.step(UploadEvent::Chunk(chunk));
        match a {
            UploadAction::Forward(b) => forwarded.extend(b),
            other => panic!("unexpected action: {:?}", other),
        }
        s = next;
    }
    assert_eq!(forwarded, b"hello".to_vec());
}

#[test]
fn failed_blob_write_rolls_back_without_insert() {
    let s = start("c.txt", b"3");
    let (s, _) = s.step(UploadEvent::Chunk(b"abc".to_vec()));
    let (s, _) = s.step(UploadEvent::StreamEnded);
    let (s, a) = s.step(write_finished(WriteFileResult::Failure("disk full".to_string())));
    assert_eq!(a, UploadAction::DeleteBlob);
    let (s, a) = s.step(UploadEvent::Inserted);
    assert_eq!(a, UploadAction::DeleteBlob);
    let (s, a) = s.step(UploadEvent::BlobRemoved);
    assert_eq!(a, UploadAction::Respond);
    let f = UploadFailure::Storage("disk full".to_string());
    assert_eq!(f.message(), "Storage error: disk full");
    match &s.state {
        UploadState::Done(o) => {
            assert_eq!(*o, UploadOutcome::Failed(f));
            assert_eq!(o.status(), 500);
        }
        other => panic!("not done: {:?}", other),
    }
}

#[test]
fn stream_and_insert_failures_roll_back() {
    let s = start("d", b"1");
    let (s, a) = s.step(UploadEvent::StreamFailed("connection reset".to_string()));
    assert_eq!(a, UploadAction::DeleteBlob);
    let (s, _) = s.step(UploadEvent::BlobRemoved);
    assert!(matches!(&s.state, UploadState::Done(UploadOutcome::Failed(UploadFailure::Stream(_)))));
    assert_eq!(
        UploadFailure::Stream("connection reset".to_string()).message(),
        "Upload error: connection reset"
    );

    let s = start("d", b"1");
    let (s, a) = s.step(UploadEvent::HandoffFailed);
    assert_eq!(a, UploadAction::DeleteBlob);
    assert_eq!(UploadFailure::Handoff.message(), "Failed to process upload stream");
    let (s, _) = s.step(UploadEvent::BlobRemoved);
    assert!(matches!(&s.state, UploadState::Done(UploadOutcome::Failed(UploadFailure::Handoff))));

    let s = start("d", b"1");
    let (s, _) = s.step(UploadEvent::StreamEnded);
    let (s, a) = s.step(UploadEvent::WriterLost("panicked".to_string()));
    assert_eq!(a, UploadAction::DeleteBlob);
    assert_eq!(UploadFailure::Task("panicked".to_string()).message(), "Task error: panicked");
    let (s, _) = s.step(UploadEvent::BlobRemoved);
    assert!(matches!(&s.state, UploadState::Done(UploadOutcome::Failed(UploadFailure::Task(_)))));

    let s = start("d", b"1");
    let (s, _) = s.step(UploadEvent::StreamEnded);
    let (s, _) = s.step(UploadEvent::BlobWritten(Timestamp { secs: 0, nanos: 0 }));
    let (s, a) = s.step(UploadEvent::InsertFailed("locked".to_string()));
    assert_eq!(a, UploadAction::DeleteBlob);
    let (s, _) = s.step(UploadEvent::BlobRemoved);
    let f = UploadFailure::Database("locked".to_string());
    assert_eq!(f.message(), "Database error: locked");
    assert!(matches!(&s.state, UploadState::Done(UploadOutcome::Failed(x)) if *x == f));
}

fn sample_entry(id: u128) -> Entry {
    Entry {
        uuid: id,
        file_name: "e.txt".to_string(),
        file_size: 7,
        source_ip: "unknown".to_string(),
        timestamp: Timestamp { secs: 1431648000, nanos: 0 },
    }
}

fn removing_blob(id: u128) -> DeletionCoordinator {
    DeletionCoordinator::new(id)
        .step(DeletionEvent::LookedUp(Ok(Some(sample_entry(id)))))
        .step(DeletionEvent::RowRemoved(Ok(true)))
}

#[test]
fn blob_failure_with_failed_restore_is_critical() {
    let d = removing_blob(9)
        .step(DeletionEvent::BlobRemoved(DeleteFileResult::Failure("busy".to_string())));
    assert_eq!(d.action(), DeletionAction::RestoreRow);
    let d = d.step(DeletionEvent::RowRestored(Err("db down".to_string())));
    match &d.state {
        DeletionState::Done(o) => {
            assert_eq!(*o, DeleteOutcome::Critical("busy".to_string(), "db down".to_string()));
            assert_eq!(o.status(), 500);
            assert_eq!(
                o.message(),
                "Critical error: Storage deletion failed AND database restoration failed. Storage error: busy, Database error: db down"
            );
        }
        other => panic!("not done: {:?}", other),
    }
}

#[test]
fn blob_failure_with_restore_is_storage_failure() {
    let d = removing_blob(9)
        .step(DeletionEvent::BlobRemoved(DeleteFileResult::Failure("busy".to_string())))
        .step(DeletionEvent::RowRestored(Ok(())));
    match &d.state {
        DeletionState::Done(o) => {
            assert_eq!(*o, DeleteOutcome::StorageFailure("busy".to_string()));
            assert_eq!(o.message(), "Storage error: busy");
            assert_eq!(o.status(), 500);
        }
        other => panic!("not done: {:?}", other),
    }
}

#[test]
fn missing_blob_after_row_removal_counts_as_deleted() {
    let d = removing_blob(3).step(DeletionEvent::BlobRemoved(DeleteFileResult::NotFound));
    assert!(matches!(d.state, DeletionState::Done(DeleteOutcome::Deleted)));
}

#[test]
fn row_removal_problems_leave_blob_alone() {
    let d = DeletionCoordinator::new(4)
        .step(DeletionEvent::LookedUp(Ok(Some(sample_entry(4)))))
        .step(DeletionEvent::RowRemoved(Ok(false)));
    match &d.state {
        DeletionState::Done(o) => {
            assert_eq!(*o, DeleteOutcome::NotRemoved);
            assert_eq!(o.message(), "Database entry not removed");
            assert_eq!(o.status(), 500);
        }
        other => panic!("not done: {:?}", other),
    }
    let d = DeletionCoordinator::new(4)
        .step(DeletionEvent::LookedUp(Ok(Some(sample_entry(4)))))
        .step(DeletionEvent::RowRemoved(Err("io".to_string())));
    assert!(matches!(&d.state, DeletionState::Done(DeleteOutcome::DatabaseFailure(c)) if c == "io"));
    let d = DeletionCoordinator::new(4).step(DeletionEvent::LookedUp(Err("io".to_string())));
    match &d.state {
        DeletionState::Done(o) => assert_eq!(o.message(), "Database error: io"),
        other => panic!("not done: {:?}", other),
    }
}

#[test]
fn download_reports_missing_blob_and_failure() {
    let storage = LocalStorage::new("blobs/".to_string());
    match after_lookup(&storage, 1, Ok(Some(sample_entry(1)))) {
        DownloadStep::CheckBlob { file_name, path } => {
            assert_eq!(path, "blobs/00000000-0000-0000-0000-000000000001");
            let out = after_check(file_name, path, false);
            assert_eq!(out, DownloadOutcome::BlobMissing);
            assert_eq!(out.status(), 404);
        }
        other => panic!("unexpected step: {:?}", other),
    }
    let out = after_lookup(&storage, 1, Err("db".to_string()));
    assert_eq!(out, DownloadStep::Finished(DownloadOutcome::Failure("db".to_string())));
    assert_eq!(DownloadOutcome::Failure("db".to_string()).status(), 500);
}
