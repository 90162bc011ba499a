use file_vault::decimal::parse_u64;
use file_vault::entry::{ids_from_texts, Entry, EntryRow, RowError, Timestamp};
use file_vault::storage::{DeleteFileResult, LocalStorage};

#[test]
fn test_local_storage_operations() {
    let storage = LocalStorage::new("./test-storage".to_string());
    let id = 0x550e8400_e29b_41d4_a716_446655440000u128;
    let file_path = storage.get_file_path(id);
    assert_eq!(file_path, "./test-storage/550e8400-e29b-41d4-a716-446655440000");
    assert_eq!(storage.storage_path(), "./test-storage");

    let first = LocalStorage::delete_outcome(true, Some(Ok(())));
    assert_eq!(first, DeleteFileResult::Success, "Failed to delete file");
    let second = LocalStorage::delete_outcome(false, None);
    assert_eq!(second, DeleteFileResult::NotFound);
    let failed = LocalStorage::delete_outcome(true, Some(Err("denied".to_string())));
    assert_eq!(failed, DeleteFileResult::Failure("denied".to_string()));
}

#[test]
fn blob_paths_join_one_separator() {
    let id = 0xa1a2a3a4b1b2c1c2d1d2d3d4d5d6d7d8u128;
    assert_eq!(
        LocalStorage::new("/data".to_string()).get_file_path(id),
        "/data/a1a2a3a4-b1b2-c1c2-d1d2-d3d4d5d6d7d8"
    );
    assert_eq!(
        LocalStorage::new("/data/".to_string()).get_file_path(id),
        "/data/a1a2a3a4-b1b2-c1c2-d1d2-d3d4d5d6d7d8"
    );
    assert_eq!(
        LocalStorage::new(String::new()).get_file_path(id),
        "a1a2a3a4-b1b2-c1c2-d1d2-d3d4d5d6d7d8"
    );
}

#[test]
fn content_length_parsing() {
    assert_eq!(parse_u64(b"5"), Some(5));
    assert_eq!(parse_u64(b"+42"), Some(42));
    assert_eq!(parse_u64(b"0"), Some(0));
    assert_eq!(parse_u64(b"18446744073709551615"), Some(u64::MAX));
    assert_eq!(parse_u64(b"18446744073709551616"), None);
    assert_eq!(parse_u64(b"99999999999999999999"), None);
    assert_eq!(parse_u64(b""), None);
    assert_eq!(parse_u64(b"+"), None);
    assert_eq!(parse_u64(b"-1"), None);
    assert_eq!(parse_u64(b" 5"), None);
    assert_eq!(parse_u64(b"5x"), None);
}

fn entry() -> Entry {
    Entry {
        uuid: 0x550e8400_e29b_41d4_a716_446655440000u128,
        file_name: "report.pdf".to_string(),
        file_size: 1024,
        source_ip: "192.168.1.2".to_string(),
        timestamp: Timestamp { secs: 1431648000, nanos: 0 },
    }
}

#[test]
fn entry_row_round_trip() {
    let row = entry().to_row().expect("representable time");
    assert_eq!(row.uuid, "550e8400-e29b-41d4-a716-446655440000");
    assert_eq!(row.timestamp, "2015-05-15T00:00:00+00:00");
    assert_eq!(row.file_name, "report.pdf");
    assert_eq!(row.file_size, 1024);
    let back = Entry::from_row(&row).expect("valid row");
    assert_eq!(back.uuid, entry().uuid);
    assert_eq!(back.timestamp, entry().timestamp);
    assert_eq!(back.source_ip, "192.168.1.2");
}

#[test]
fn entry_rows_that_do_not_decode() {
    let mut row = EntryRow {
        uuid: "not-an-id".to_string(),
        file_name: "f".to_string(),
        file_size: 1,
        source_ip: "unknown".to_string(),
        timestamp: "2015-05-15T00:00:00+00:00".to_string(),
    };
    assert_eq!(Entry::from_row(&row).err(), Some(RowError::BadId));
    row.uuid = "550E8400E29B41D4A716446655440000".to_string();
    row.file_size = -1;
    assert_eq!(Entry::from_row(&row).err(), Some(RowError::BadSize));
    row.file_size = 1;
    row.timestamp = "yesterday".to_string();
    assert_eq!(Entry::from_row(&row).err(), Some(RowError::BadTimestamp));
    row.timestamp = "2015-05-15T02:00:00+02:00".to_string();
    let e = Entry::from_row(&row).expect("valid row");
    assert_eq!(e.uuid, 0x550e8400_e29b_41d4_a716_446655440000u128);
    assert_eq!(e.timestamp, Timestamp { secs: 1431648000, nanos: 0 });
}

#[test]
fn unrepresentable_time_has_no_row() {
    let mut e = entry();
    e.timestamp = Timestamp { secs: 0, nanos: 2_000_000_000 };
    assert_eq!(e.to_row().err(), Some(RowError::TimestampOutOfRange));
    e.timestamp = Timestamp { secs: i64::MAX, nanos: 0 };
    assert_eq!(e.to_row().err(), Some(RowError::TimestampOutOfRange));
    e.file_size = u64::MAX;
    assert_eq!(e.to_row().err(), Some(RowError::SizeOutOfRange));
}

#[test]
fn id_lists_decode_in_order() {
    let texts = vec![
        "00000000-0000-0000-0000-000000000002".to_string(),
        "{00000000-0000-0000-0000-000000000001}".to_string(),
    ];
    assert_eq!(ids_from_texts(&texts), Ok(vec![2, 1]));
    assert_eq!(ids_from_texts(&Vec::new()), Ok(Vec::new()));
    let bad = vec!["00000000-0000-0000-0000-000000000002".to_string(), "x".to_string()];
    assert_eq!(ids_from_texts(&bad), Err(RowError::BadId));
}
