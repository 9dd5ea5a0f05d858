use telegram_onedrive::error::StoreError;
use telegram_onedrive::store::{InsertTask, TaskStore};
use telegram_onedrive::tasks::{CmdType, TaskStatus};

fn file_task(total: i64) -> InsertTask {
    InsertTask {
        cmd_type: CmdType::File,
        filename: "a.bin".to_string(),
        root_path: "/drive".to_string(),
        url: None,
        upload_url: "https://upload.example/slot/1".to_string(),
        current_length: 0,
        total_length: total,
        chat_id: 7,
        chat_bot_hex: "b0".to_string(),
        chat_user_hex: "u0".to_string(),
        chat_origin_hex: None,
        message_id: 5,
        message_id_forward: None,
        message_id_origin: None,
    }
}

#[test]
fn insert_assigns_waiting_and_fresh_ids() {
    let mut store = TaskStore::new();
    let a = store.insert_task(file_task(10));
    let b = store.insert_task(file_task(20));
    assert_eq!(a, 1);
    assert_eq!(b, 2);
    let row = store.get(a).unwrap();
    assert!(matches!(row.status, TaskStatus::Waiting));
    assert_eq!(row.current_length, 0);
    assert_eq!(row.total_length, 10);
    assert_eq!(row.filename, "a.bin");
}

#[test]
fn update_progress_moves_forward_only() {
    let mut store = TaskStore::new();
    let id = store.insert_task(file_task(100));
    assert!(store.update_progress(id, 40).is_ok());
    assert_eq!(store.get(id).unwrap().current_length, 40);
    assert_eq!(store.update_progress(id, 30), Err(StoreError::ProgressDecreased));
    assert_eq!(store.get(id).unwrap().current_length, 40);
    assert_eq!(store.update_progress(id, 101), Err(StoreError::ProgressBeyondTotal));
    assert_eq!(store.update_progress(99, 50), Err(StoreError::TaskNotFound));
    assert!(store.update_progress(id, 100).is_ok());
}

#[test]
fn update_progress_refused_on_terminal_task() {
    let mut store = TaskStore::new();
    let id = store.insert_task(file_task(100));
    store.transition(id, TaskStatus::Failed).unwrap();
    assert_eq!(store.update_progress(id, 50), Err(StoreError::InvalidTransition));
    assert_eq!(store.get(id).unwrap().current_length, 0);
}

#[test]
fn transition_follows_status_chain() {
    let mut store = TaskStore::new();
    let id = store.insert_task(file_task(100));
    assert!(store.transition(id, TaskStatus::Fetched).is_ok());
    assert!(store.transition(id, TaskStatus::Started).is_ok());
    assert!(store.transition(id, TaskStatus::Completed).is_ok());
    assert!(matches!(store.get(id).unwrap().status, TaskStatus::Completed));
}

#[test]
fn transition_never_moves_backwards_or_out_of_terminal() {
    let mut store = TaskStore::new();
    let id = store.insert_task(file_task(100));
    store.transition(id, TaskStatus::Started).unwrap();
    assert_eq!(store.transition(id, TaskStatus::Waiting), Err(StoreError::InvalidTransition));
    assert_eq!(store.transition(id, TaskStatus::Fetched), Err(StoreError::InvalidTransition));
    assert_eq!(store.transition(id, TaskStatus::Started), Err(StoreError::InvalidTransition));
    store.transition(id, TaskStatus::Completed).unwrap();
    assert_eq!(store.transition(id, TaskStatus::Failed), Err(StoreError::InvalidTransition));
    assert_eq!(store.transition(99, TaskStatus::Failed), Err(StoreError::TaskNotFound));
}

#[test]
fn failed_reachable_from_any_non_terminal_status() {
    let mut store = TaskStore::new();
    let a = store.insert_task(file_task(10));
    let b = store.insert_task(file_task(10));
    let c = store.insert_task(file_task(10));
    store.transition(b, TaskStatus::Fetched).unwrap();
    store.transition(c, TaskStatus::Fetched).unwrap();
    store.transition(c, TaskStatus::Started).unwrap();
    assert!(store.transition(a, TaskStatus::Failed).is_ok());
    assert!(store.transition(b, TaskStatus::Failed).is_ok());
    assert!(store.transition(c, TaskStatus::Failed).is_ok());
}

#[test]
fn delete_removes_the_row() {
    let mut store = TaskStore::new();
    let a = store.insert_task(file_task(10));
    let b = store.insert_task(file_task(10));
    assert!(store.delete(a).is_ok());
    assert!(store.get(a).is_none());
    assert!(store.get(b).is_some());
    assert_eq!(store.delete(a), Err(StoreError::TaskNotFound));
}

#[test]
fn list_by_status_returns_matching_ids_in_order() {
    let mut store = TaskStore::new();
    let a = store.insert_task(file_task(10));
    let b = store.insert_task(file_task(10));
    let c = store.insert_task(file_task(10));
    store.transition(b, TaskStatus::Fetched).unwrap();
    assert_eq!(store.list_by_status(TaskStatus::Waiting), vec![a, c]);
    assert_eq!(store.list_by_status(TaskStatus::Fetched), vec![b]);
    assert_eq!(store.list_by_status(TaskStatus::Completed), Vec::<i64>::new());
}

#[test]
fn status_words_round_trip() {
    let all = [
        TaskStatus::Waiting,
        TaskStatus::Fetched,
        TaskStatus::Started,
        TaskStatus::Completed,
        TaskStatus::Failed,
    ];
    for st in all {
        let text = st.to_text();
        assert_eq!(TaskStatus::from_text(text.as_str()), Some(st));
    }
    assert_eq!(TaskStatus::Waiting.to_text(), "waiting");
    assert_eq!(TaskStatus::Completed.to_text(), "completed");
    assert_eq!(TaskStatus::from_text("done"), None);
    assert_eq!(TaskStatus::from_text(""), None);
}

#[test]
fn cmd_type_words_round_trip() {
    let all = [CmdType::File, CmdType::Link, CmdType::Url];
    for c in all {
        let text = c.to_text();
        assert_eq!(CmdType::from_text(text.as_str()), Some(c));
    }
    assert_eq!(CmdType::File.to_text(), "file");
    assert_eq!(CmdType::from_text("photo"), None);
}
