use telegram_onedrive::cancel::CancelRegistry;
use telegram_onedrive::driver::{drive_chunk, run_transfer, ChunkOutcome, StepResult};
use telegram_onedrive::error::{EngineError, ProtocolError, StoreError, TransferError};
use telegram_onedrive::store::{InsertTask, TaskStore};
use telegram_onedrive::tasks::{CmdType, TaskStatus};
use telegram_onedrive::upload::{
    insert_file_task, insert_url_task, parse_content_length, ExpectedRange, MediaKind,
    UploadSessionMeta,
};

fn file_task(current: i64, total: i64) -> InsertTask {
    InsertTask {
        cmd_type: CmdType::File,
        filename: "movie.mp4".to_string(),
        root_path: "/drive".to_string(),
        url: None,
        upload_url: "https://upload.example/slot/9".to_string(),
        current_length: current,
        total_length: total,
        chat_id: 7,
        chat_bot_hex: "b0".to_string(),
        chat_user_hex: "u0".to_string(),
        chat_origin_hex: None,
        message_id: 5,
        message_id_forward: None,
        message_id_origin: None,
    }
}

fn fresh_meta() -> UploadSessionMeta {
    UploadSessionMeta { next_expected_ranges: Vec::new() }
}

#[test]
fn file_transfer_in_four_chunks() {
    let mut store = TaskStore::new();
    let mut reg = CancelRegistry::new();
    let id = store.insert_task(file_task(0, 1000));
    assert!(matches!(store.get(id).unwrap().status, TaskStatus::Waiting));
    let updates = run_transfer(&mut store, &mut reg, id, 300);
    assert_eq!(updates, vec![300, 600, 900, 1000]);
    let row = store.get(id).unwrap();
    assert!(matches!(row.status, TaskStatus::Completed));
    assert_eq!(row.current_length, 1000);
}

#[test]
fn status_sequence_of_a_chunked_transfer() {
    let mut store = TaskStore::new();
    let id = store.insert_task(file_task(0, 1000));
    assert!(matches!(store.get(id).unwrap().status, TaskStatus::Waiting));
    store.transition(id, TaskStatus::Fetched).unwrap();
    assert!(matches!(store.get(id).unwrap().status, TaskStatus::Fetched));
    let mut persisted = Vec::new();
    loop {
        match drive_chunk(&mut store, id, 300, ChunkOutcome::Written) {
            StepResult::Progressed { new_length } => {
                persisted.push(new_length);
                assert!(matches!(store.get(id).unwrap().status, TaskStatus::Started));
            }
            StepResult::Finished => {
                persisted.push(store.get(id).unwrap().current_length);
                break;
            }
            _ => unreachable!(),
        }
    }
    assert_eq!(persisted, vec![300, 600, 900, 1000]);
    assert!(matches!(store.get(id).unwrap().status, TaskStatus::Completed));
}

#[test]
fn restart_resumes_at_recorded_offset() {
    let mut store = TaskStore::new();
    let mut reg = CancelRegistry::new();
    let id = store.insert_task(file_task(400, 1000));
    let updates = run_transfer(&mut store, &mut reg, id, 300);
    assert_eq!(updates, vec![700, 1000]);
    for u in &updates {
        assert!(*u > 400);
    }
    assert_eq!(store.get(id).unwrap().current_length, 1000);
}

#[test]
fn transfer_of_already_complete_task() {
    let mut store = TaskStore::new();
    let mut reg = CancelRegistry::new();
    let id = store.insert_task(file_task(50, 50));
    let updates = run_transfer(&mut store, &mut reg, id, 300);
    assert_eq!(updates, Vec::<i64>::new());
    assert!(matches!(store.get(id).unwrap().status, TaskStatus::Completed));
}

#[test]
fn write_failure_fails_the_task() {
    let mut store = TaskStore::new();
    let id = store.insert_task(file_task(0, 1000));
    store.transition(id, TaskStatus::Fetched).unwrap();
    assert!(matches!(
        drive_chunk(&mut store, id, 300, ChunkOutcome::Written),
        StepResult::Progressed { new_length: 300 }
    ));
    assert!(matches!(
        drive_chunk(&mut store, id, 300, ChunkOutcome::WriteFailed),
        StepResult::TaskFailed
    ));
    let row = store.get(id).unwrap();
    assert!(matches!(row.status, TaskStatus::Failed));
    assert_eq!(row.current_length, 300);
}

#[test]
fn cancellation_removes_the_task_without_failing_it() {
    let mut store = TaskStore::new();
    let id = store.insert_task(file_task(0, 1000));
    store.transition(id, TaskStatus::Fetched).unwrap();
    drive_chunk(&mut store, id, 300, ChunkOutcome::Written);
    assert!(matches!(
        drive_chunk(&mut store, id, 300, ChunkOutcome::Cancelled),
        StepResult::Aborted
    ));
    assert!(store.get(id).is_none());
    assert_eq!(store.list_by_status(TaskStatus::Failed), Vec::<i64>::new());
}

#[test]
fn insert_refused_while_scope_cancellation_in_progress() {
    let mut store = TaskStore::new();
    let mut reg = CancelRegistry::new();
    reg.begin_chat_teardown(7);
    let r = reg.guarded_insert(&mut store, file_task(0, 100));
    assert_eq!(r, Err(StoreError::ScopeCancelling));
    assert!(store.list_by_status(TaskStatus::Waiting).is_empty());
    reg.end_chat_teardown(7);
    let id = reg.guarded_insert(&mut store, file_task(0, 100)).unwrap();
    assert!(store.get(id).is_some());
}

#[test]
fn teardown_of_one_scope_leaves_others_open() {
    let mut store = TaskStore::new();
    let mut reg = CancelRegistry::new();
    reg.begin_chat_teardown(8);
    let mut t = file_task(0, 100);
    t.chat_id = 7;
    let id = reg.guarded_insert(&mut store, t).unwrap();
    assert!(store.get(id).is_some());
}

#[test]
fn cancel_handle_lifecycle() {
    let mut reg = CancelRegistry::new();
    let h = reg.register(11, 7).unwrap();
    assert_eq!(h.task_id, 11);
    assert_eq!(h.chat_id, 7);
    assert!(reg.register(11, 7).is_err());
    let signalled = reg.cancel(11).unwrap();
    assert_eq!(signalled.task_id, 11);
    assert!(reg.cancel(11).is_none());
    reg.register(12, 7).unwrap();
    assert!(reg.clear_on_terminal(12));
    assert!(!reg.clear_on_terminal(12));
}

#[test]
fn url_task_with_content_length_is_created() {
    let mut store = TaskStore::new();
    let mut reg = CancelRegistry::new();
    let header = "1000".to_string();
    let id = insert_url_task(
        &mut reg,
        &mut store,
        "https://files.example/movie.mp4".to_string(),
        "movie.mp4".to_string(),
        "/drive".to_string(),
        "https://upload.example/slot/9".to_string(),
        Some(&header),
        &fresh_meta(),
        7,
        "b0".to_string(),
        "u0".to_string(),
        5,
    )
    .unwrap();
    let row = store.get(id).unwrap();
    assert!(matches!(row.cmd_type, CmdType::Url));
    assert_eq!(row.total_length, 1000);
    assert_eq!(row.current_length, 0);
    assert_eq!(row.url.as_deref(), Some("https://files.example/movie.mp4"));
    assert!(matches!(row.status, TaskStatus::Waiting));
}

#[test]
fn url_task_without_content_length_writes_no_row() {
    let mut store = TaskStore::new();
    let mut reg = CancelRegistry::new();
    let r = insert_url_task(
        &mut reg,
        &mut store,
        "https://files.example/movie.mp4".to_string(),
        "movie.mp4".to_string(),
        "/drive".to_string(),
        "https://upload.example/slot/9".to_string(),
        None,
        &fresh_meta(),
        7,
        "b0".to_string(),
        "u0".to_string(),
        5,
    );
    assert_eq!(r, Err(EngineError::Transfer(TransferError::MissingContentLength)));
    assert!(store.list_by_status(TaskStatus::Waiting).is_empty());
    assert!(store.get(1).is_none());
}

#[test]
fn url_task_with_malformed_content_length_writes_no_row() {
    let mut store = TaskStore::new();
    let mut reg = CancelRegistry::new();
    let header = "12x".to_string();
    let r = insert_url_task(
        &mut reg,
        &mut store,
        "https://files.example/movie.mp4".to_string(),
        "movie.mp4".to_string(),
        "/drive".to_string(),
        "https://upload.example/slot/9".to_string(),
        Some(&header),
        &fresh_meta(),
        7,
        "b0".to_string(),
        "u0".to_string(),
        5,
    );
    assert_eq!(r, Err(EngineError::Transfer(TransferError::MalformedContentLength)));
    assert!(store.get(1).is_none());
}

#[test]
fn url_task_refused_for_non_http_address() {
    let mut store = TaskStore::new();
    let mut reg = CancelRegistry::new();
    let header = "1000".to_string();
    let r = insert_url_task(
        &mut reg,
        &mut store,
        "ftp://files.example/movie.mp4".to_string(),
        "movie.mp4".to_string(),
        "/drive".to_string(),
        "https://upload.example/slot/9".to_string(),
        Some(&header),
        &fresh_meta(),
        7,
        "b0".to_string(),
        "u0".to_string(),
        5,
    );
    assert_eq!(r, Err(EngineError::Transfer(TransferError::NotHttpUrl)));
    assert!(store.get(1).is_none());
}

#[test]
fn url_task_refused_when_seed_beyond_total() {
    let mut store = TaskStore::new();
    let mut reg = CancelRegistry::new();
    let header = "10".to_string();
    let meta = UploadSessionMeta {
        next_expected_ranges: vec![ExpectedRange { start: 50, end: None }],
    };
    let r = insert_url_task(
        &mut reg,
        &mut store,
        "https://files.example/movie.mp4".to_string(),
        "movie.mp4".to_string(),
        "/drive".to_string(),
        "https://upload.example/slot/9".to_string(),
        Some(&header),
        &meta,
        7,
        "b0".to_string(),
        "u0".to_string(),
        5,
    );
    assert_eq!(r, Err(EngineError::Protocol(ProtocolError::UnexpectedResponse)));
    assert!(store.get(1).is_none());
}

#[test]
fn file_task_for_forwarded_message_uses_placeholder() {
    let mut store = TaskStore::new();
    let mut reg = CancelRegistry::new();
    let id = insert_file_task(
        &mut reg,
        &mut store,
        MediaKind::Document,
        "doc.pdf".to_string(),
        "/drive".to_string(),
        "https://upload.example/slot/2".to_string(),
        500,
        &fresh_meta(),
        7,
        "b0".to_string(),
        "u0".to_string(),
        5,
        Some(99),
    )
    .unwrap();
    let row = store.get(id).unwrap();
    assert_eq!(row.message_id, 99);
    assert_eq!(row.message_id_forward, Some(5));
    assert!(row.url.is_none());
}

#[test]
fn file_task_refused_for_unsupported_media() {
    let mut store = TaskStore::new();
    let mut reg = CancelRegistry::new();
    let r = insert_file_task(
        &mut reg,
        &mut store,
        MediaKind::Other,
        "voice.ogg".to_string(),
        "/drive".to_string(),
        "https://upload.example/slot/2".to_string(),
        500,
        &fresh_meta(),
        7,
        "b0".to_string(),
        "u0".to_string(),
        5,
        None,
    );
    assert_eq!(r, Err(EngineError::Transfer(TransferError::UnsupportedMediaKind)));
    assert!(store.get(1).is_none());
}

#[test]
fn content_length_parsing_is_exact() {
    assert_eq!(parse_content_length("0"), Some(0));
    assert_eq!(parse_content_length("1000"), Some(1000));
    assert_eq!(parse_content_length("18446744073709551615"), Some(u64::MAX));
    assert_eq!(parse_content_length("18446744073709551616"), None);
    assert_eq!(parse_content_length(""), None);
    assert_eq!(parse_content_length("+5"), None);
    assert_eq!(parse_content_length("12 "), None);
    assert_eq!(parse_content_length("0012"), Some(12));
}

#[test]
fn seed_comes_from_first_expected_range() {
    let empty = UploadSessionMeta { next_expected_ranges: Vec::new() };
    assert_eq!(empty.seed_current_length(), 0);
    let fresh = UploadSessionMeta {
        next_expected_ranges: vec![ExpectedRange { start: 0, end: None }],
    };
    assert_eq!(fresh.seed_current_length(), 0);
    let resumed = UploadSessionMeta {
        next_expected_ranges: vec![
            ExpectedRange { start: 400, end: Some(699) },
            ExpectedRange { start: 800, end: None },
        ],
    };
    assert_eq!(resumed.seed_current_length(), 400);
}
