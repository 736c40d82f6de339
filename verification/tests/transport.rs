use backup_transport::state::{BackupError, DatastoreMode, ListEntry};
use backup_transport::store::InMemoryStore;
use backup_transport::transport::{
    interpret_list_response, interpret_write_response, pull, push, GLBackupTransport,
};

#[test]
fn pull_on_never_written_store_returns_none() {
    let store = InMemoryStore::new();
    match pull(&store) {
        Ok(None) => {}
        other => panic!("expected no backup, got {:?}", other.is_ok()),
    }
}

#[test]
fn first_push_assigns_generation_one() {
    let mut store = InMemoryStore::new();
    let r = push(&mut store, None, b"v1".to_vec());
    assert_eq!(r, Ok(1));
}

#[test]
fn chased_pushes_count_up_by_one() {
    let mut store = InMemoryStore::new();
    let mut expected: Option<u64> = None;
    for round in 1..=5u64 {
        let r = push(&mut store, expected, vec![round as u8]);
        assert_eq!(r, Ok(round));
        expected = Some(round);
    }
}

#[test]
fn create_push_on_present_key_conflicts() {
    let mut store = InMemoryStore::new();
    assert_eq!(push(&mut store, None, b"first".to_vec()), Ok(1));
    assert_eq!(push(&mut store, None, b"second".to_vec()), Err(BackupError::Conflict));
    match pull(&store) {
        Ok(Some(b)) => {
            assert_eq!(b.generation, 1);
            assert_eq!(b.data, b"first".to_vec());
        }
        other => panic!("expected the first backup to survive, got {:?}", other.is_ok()),
    }
}

#[test]
fn stale_version_push_conflicts_and_changes_nothing() {
    let mut store = InMemoryStore::new();
    assert_eq!(push(&mut store, None, b"v1".to_vec()), Ok(1));
    assert_eq!(push(&mut store, Some(1), b"v2".to_vec()), Ok(2));
    assert_eq!(push(&mut store, Some(1), b"v3".to_vec()), Err(BackupError::Conflict));
    assert_eq!(push(&mut store, Some(7), b"v3".to_vec()), Err(BackupError::Conflict));
    match pull(&store) {
        Ok(Some(b)) => {
            assert_eq!(b.generation, 2);
            assert_eq!(b.data, b"v2".to_vec());
        }
        other => panic!("expected generation 2 to survive, got {:?}", other.is_ok()),
    }
}

#[test]
fn versioned_push_on_absent_slot_conflicts() {
    let mut store = InMemoryStore::new();
    assert_eq!(push(&mut store, Some(1), b"v1".to_vec()), Err(BackupError::Conflict));
    match pull(&store) {
        Ok(None) => {}
        other => panic!("expected the slot to stay absent, got {:?}", other.is_ok()),
    }
}

#[test]
fn pull_after_push_returns_exact_state() {
    let mut store = InMemoryStore::new();
    assert_eq!(push(&mut store, None, b"payload".to_vec()), Ok(1));
    match pull(&store) {
        Ok(Some(b)) => {
            assert_eq!(b.generation, 1);
            assert_eq!(b.data, b"payload".to_vec());
        }
        other => panic!("expected the pushed state back, got {:?}", other.is_ok()),
    }
    assert_eq!(push(&mut store, Some(1), b"newer".to_vec()), Ok(2));
    match pull(&store) {
        Ok(Some(b)) => {
            assert_eq!(b.generation, 2);
            assert_eq!(b.data, b"newer".to_vec());
        }
        other => panic!("expected the replaced state back, got {:?}", other.is_ok()),
    }
}

#[test]
fn multiple_entries_fail_with_protocol() {
    let entries = vec![
        ListEntry { generation: Some(1), data: Some(b"a".to_vec()) },
        ListEntry { generation: Some(2), data: Some(b"b".to_vec()) },
    ];
    match interpret_list_response(entries) {
        Err(BackupError::Protocol) => {}
        other => panic!("expected a protocol error, got {:?}", other.is_ok()),
    }
}

#[test]
fn missing_generation_field_is_protocol_error() {
    let entries = vec![ListEntry { generation: None, data: Some(b"a".to_vec()) }];
    match interpret_list_response(entries) {
        Err(BackupError::Protocol) => {}
        other => panic!("expected a protocol error, got {:?}", other.is_ok()),
    }
}

#[test]
fn missing_data_field_is_protocol_error() {
    let entries = vec![ListEntry { generation: Some(1), data: None }];
    match interpret_list_response(entries) {
        Err(BackupError::Protocol) => {}
        other => panic!("expected a protocol error, got {:?}", other.is_ok()),
    }
}

#[test]
fn single_entry_is_returned_verbatim() {
    let entries = vec![ListEntry { generation: Some(42), data: Some(b"blob".to_vec()) }];
    match interpret_list_response(entries) {
        Ok(Some(b)) => {
            assert_eq!(b.generation, 42);
            assert_eq!(b.data, b"blob".to_vec());
        }
        other => panic!("expected the entry back, got {:?}", other.is_ok()),
    }
}

#[test]
fn empty_list_response_means_no_backup() {
    match interpret_list_response(Vec::new()) {
        Ok(None) => {}
        other => panic!("expected no backup, got {:?}", other.is_ok()),
    }
}

#[test]
fn write_reply_missing_generation_is_protocol_error() {
    assert_eq!(interpret_write_response(None), Err(BackupError::Protocol));
}

#[test]
fn write_reply_with_generation_returns_it() {
    assert_eq!(interpret_write_response(Some(7)), Ok(7));
}

#[test]
fn gl_key_is_fixed_two_component_path() {
    let transport = GLBackupTransport {};
    let key = transport.gl_key();
    assert_eq!(key, vec!["breez-sdk".to_string(), "backup".to_string()]);
}

#[test]
fn push_mode_is_derived_from_expected_version() {
    let transport = GLBackupTransport {};
    assert_eq!(transport.push_mode(None), DatastoreMode::MustCreate);
    assert_eq!(transport.push_mode(Some(1)), DatastoreMode::MustReplace);
    assert_eq!(transport.push_mode(Some(0)), DatastoreMode::MustReplace);
}

#[test]
fn empty_payload_is_accepted() {
    let mut store = InMemoryStore::new();
    assert_eq!(push(&mut store, None, Vec::new()), Ok(1));
    match pull(&store) {
        Ok(Some(b)) => {
            assert_eq!(b.generation, 1);
            assert_eq!(b.data, Vec::<u8>::new());
        }
        other => panic!("expected an empty payload back, got {:?}", other.is_ok()),
    }
}

#[test]
fn scenario_full_round() {
    let mut store = InMemoryStore::new();
    match pull(&store) {
        Ok(None) => {}
        other => panic!("expected an empty store, got {:?}", other.is_ok()),
    }
    assert_eq!(push(&mut store, None, b"v1".to_vec()), Ok(1));
    match pull(&store) {
        Ok(Some(b)) => {
            assert_eq!(b.generation, 1);
            assert_eq!(b.data, b"v1".to_vec());
        }
        other => panic!("expected generation 1, got {:?}", other.is_ok()),
    }
    assert_eq!(push(&mut store, Some(1), b"v2".to_vec()), Ok(2));
    assert_eq!(push(&mut store, Some(1), b"v3".to_vec()), Err(BackupError::Conflict));
    assert_eq!(push(&mut store, Some(2), b"v3".to_vec()), Ok(3));
}
