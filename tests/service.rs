use todo_service::model::{apply_update, prepare_create, prepare_update, Task, Timestamp, UpdateTask};
use todo_service::service::{
    count, create, delete, list, list_filter, respond_create, respond_delete, respond_list, respond_update,
    update, ListOptionKind,
};
use todo_service::store::{MemoryStore, StoreError};
use todo_service::wire::{
    from_wire_timestamp, map_db_struct_to_proto, task_from_wire, task_to_wire, to_wire_timestamp, WireTask,
    WireTimestamp,
};

fn now() -> Timestamp {
    Timestamp { seconds: 1_600_000_000, nanos: 123_456_789 }
}

fn create_task(store: &mut MemoryStore, name: &str) -> WireTask {
    create(store, Some(name.to_string()), now()).unwrap()
}

fn update_task(store: &mut MemoryStore, id: i32, done: Option<bool>, name: Option<String>) -> WireTask {
    update(store, id, name, done, now()).unwrap()
}

#[test]
fn test_create_todo() {
    let mut store = MemoryStore::new();
    let response = create_task(&mut store, "create grpc example");
    assert_eq!(response.name, "create grpc example");
}

#[test]
fn test_delete_todo() {
    let mut store = MemoryStore::new();
    let response = create_task(&mut store, "a task that should be deleted");
    delete(&mut store, response.id).unwrap();
    assert_eq!(count(&store, ListOptionKind::All), 0);
}

#[test]
fn test_update_todo() {
    let mut store = MemoryStore::new();
    let response = create_task(&mut store, "a task that will be set as done");
    let response = update_task(&mut store, response.id, Some(true), None);
    assert_eq!(response.done, true);
    let response = update_task(&mut store, response.id, Some(false), None);
    assert_eq!(response.done, false);
}

#[test]
fn test_list_todos() {
    let mut store = MemoryStore::new();
    let response_1 = create_task(&mut store, "Task1");
    let _response_2 = create_task(&mut store, "Task2");
    let _response_3 = create_task(&mut store, "Task2");
    let response_4 = create_task(&mut store, "Task4");
    let response_5 = create_task(&mut store, "Task5");
    update_task(&mut store, response_1.id, Some(true), None);
    update_task(&mut store, response_4.id, Some(true), None);
    update_task(&mut store, response_5.id, Some(true), None);
    assert_eq!(count(&store, ListOptionKind::All), 5);
    assert_eq!(count(&store, ListOptionKind::Done), 3);
    assert_eq!(count(&store, ListOptionKind::NotDone), 2);
    assert_eq!(list(&store, ListOptionKind::All).unwrap().len(), 5);
    assert_eq!(list(&store, ListOptionKind::Done).unwrap().len(), 3);
    assert_eq!(list(&store, ListOptionKind::NotDone).unwrap().len(), 2);
}

#[test]
fn create_returns_fresh_undone_task() {
    let mut store = MemoryStore::new();
    let w = create_task(&mut store, "write report");
    assert_eq!(w.name, "write report");
    assert_eq!(w.id, 1);
    assert!(!w.done);
    assert_eq!(w.done_at, None);
    assert_eq!(w.created_at, Some(WireTimestamp { seconds: 1_600_000_000, nanos: 123_456_789 }));
    let w2 = create_task(&mut store, "second");
    assert_eq!(w2.id, 2);
}

#[test]
fn create_without_definition_is_refused() {
    let mut store = MemoryStore::new();
    create_task(&mut store, "kept");
    let r = create(&mut store, None, now());
    assert_eq!(r.unwrap_err().message, "missing task definition");
    assert_eq!(count(&store, ListOptionKind::All), 1);
}

#[test]
fn done_then_undone_clears_completion_time() {
    let mut store = MemoryStore::new();
    let x = create_task(&mut store, "X");
    let later = Timestamp { seconds: 1_700_000_000, nanos: 5 };
    let d = update(&mut store, x.id, None, Some(true), later).unwrap();
    assert!(d.done);
    assert_eq!(d.done_at, Some(WireTimestamp { seconds: 1_700_000_000, nanos: 5 }));
    let u = update(&mut store, x.id, None, Some(false), later).unwrap();
    assert!(!u.done);
    assert_eq!(u.done_at, None);
    let listed = list(&store, ListOptionKind::All).unwrap();
    assert_eq!(listed.len(), 1);
    assert!(!listed[0].done);
    assert_eq!(listed[0].done_at, None);
}

#[test]
fn rename_keeps_completion() {
    let mut store = MemoryStore::new();
    let x = create_task(&mut store, "old name");
    let d = update_task(&mut store, x.id, Some(true), None);
    let r = update(&mut store, x.id, Some("new name".to_string()), None, Timestamp { seconds: 9, nanos: 9 })
        .unwrap();
    assert_eq!(r.name, "new name");
    assert!(r.done);
    assert_eq!(r.done_at, d.done_at);
}

#[test]
fn update_with_no_fields_returns_current_row() {
    let mut store = MemoryStore::new();
    let x = create_task(&mut store, "same");
    let r = update(&mut store, x.id, None, None, Timestamp { seconds: 1, nanos: 0 }).unwrap();
    assert_eq!(r.name, "same");
    assert!(!r.done);
    assert_eq!(r.created_at, x.created_at);
}

#[test]
fn update_of_missing_id_fails() {
    let mut store = MemoryStore::new();
    create_task(&mut store, "one");
    let r = update(&mut store, 42, None, Some(true), now());
    assert_eq!(r.unwrap_err().message, "update task failed. Record not found");
    assert_eq!(count(&store, ListOptionKind::Done), 0);
}

#[test]
fn delete_of_missing_id_succeeds() {
    let mut store = MemoryStore::new();
    create_task(&mut store, "one");
    create_task(&mut store, "two");
    assert!(delete(&mut store, 99).is_ok());
    assert_eq!(count(&store, ListOptionKind::All), 2);
}

#[test]
fn delete_of_existing_id_removes_one_row() {
    let mut store = MemoryStore::new();
    create_task(&mut store, "one");
    let two = create_task(&mut store, "two");
    create_task(&mut store, "three");
    delete(&mut store, two.id).unwrap();
    let listed = list(&store, ListOptionKind::All).unwrap();
    assert_eq!(listed.len(), 2);
    assert_eq!(listed[0].name, "one");
    assert_eq!(listed[1].name, "three");
    delete(&mut store, two.id).unwrap();
    assert_eq!(count(&store, ListOptionKind::All), 2);
}

#[test]
fn list_filters_keep_store_order() {
    let mut store = MemoryStore::new();
    for name in ["a", "b", "c", "d"] {
        create_task(&mut store, name);
    }
    update_task(&mut store, 2, Some(true), None);
    update_task(&mut store, 4, Some(true), None);
    let done: Vec<String> = list(&store, ListOptionKind::Done).unwrap().into_iter().map(|w| w.name).collect();
    assert_eq!(done, vec!["b".to_string(), "d".to_string()]);
    let open: Vec<String> = list(&store, ListOptionKind::NotDone).unwrap().into_iter().map(|w| w.name).collect();
    assert_eq!(open, vec!["a".to_string(), "c".to_string()]);
    assert_eq!(list(&MemoryStore::new(), ListOptionKind::All).unwrap().len(), 0);
}

#[test]
fn list_filter_modes() {
    assert_eq!(list_filter(ListOptionKind::All), None);
    assert_eq!(list_filter(ListOptionKind::Done), Some(true));
    assert_eq!(list_filter(ListOptionKind::NotDone), Some(false));
}

fn sample_task() -> Task {
    Task {
        id: 7,
        name: "sample".to_string(),
        created_at: Timestamp { seconds: 1_234, nanos: 999_999_999 },
        done_at: Some(Timestamp { seconds: 5_678, nanos: 1_500_000_000 }),
        done: true,
    }
}

#[test]
fn wire_round_trip_keeps_every_field() {
    let t = sample_task();
    let w = task_to_wire(t.clone());
    assert_eq!(w.created_at, Some(WireTimestamp { seconds: 1_234, nanos: 999_999_999 }));
    assert_eq!(w.done_at, Some(WireTimestamp { seconds: 5_678, nanos: 1_500_000_000 }));
    let back = task_from_wire(&w).unwrap();
    assert_eq!(back.id, 7);
    assert_eq!(back.name, "sample");
    assert!(back.done);
    assert_eq!(back.created_at, t.created_at);
    assert_eq!(back.done_at, t.done_at);
}

#[test]
fn wire_without_creation_time_is_not_a_task() {
    let w = WireTask::new();
    assert!(task_from_wire(&w).is_none());
    let mut w = task_to_wire(sample_task());
    w.done_at = Some(WireTimestamp { seconds: 0, nanos: -1 });
    assert!(task_from_wire(&w).is_none());
}

#[test]
fn timestamp_conversions() {
    let t = Timestamp { seconds: -5, nanos: 42 };
    assert_eq!(to_wire_timestamp(t), WireTimestamp { seconds: -5, nanos: 42 });
    assert_eq!(from_wire_timestamp(WireTimestamp { seconds: -5, nanos: 42 }), Some(t));
    assert_eq!(from_wire_timestamp(WireTimestamp { seconds: 3, nanos: -1 }), None);
    assert_eq!(from_wire_timestamp(WireTimestamp { seconds: 3, nanos: 2_000_000_000 }), None);
}

#[test]
fn mapping_leaves_unset_completion_time_alone() {
    let mut t = sample_task();
    t.done_at = None;
    t.done = false;
    let mut w = WireTask::new();
    map_db_struct_to_proto(&mut w, t);
    assert_eq!(w.done_at, None);
    assert_eq!(w.name, "sample");
    assert_eq!(w.id, 7);
}

#[test]
fn responses_map_store_failures() {
    let e = respond_create(Err(StoreError::Operation("duplicate key".to_string()))).unwrap_err();
    assert_eq!(e.message, "Task creation failed. duplicate key");
    let e = respond_create(Err(StoreError::Connection("DATABASE_URL must be set".to_string()))).unwrap_err();
    assert_eq!(e.message, "DATABASE_URL must be set");
    let e = respond_update(Err(StoreError::Operation("Record not found".to_string()))).unwrap_err();
    assert_eq!(e.message, "update task failed. Record not found");
    let e = respond_delete(Err(StoreError::Operation("connection reset".to_string()))).unwrap_err();
    assert_eq!(e.message, "Task deletion failed. connection reset");
    assert!(respond_delete(Ok(0)).is_ok());
    let e = respond_list(Err(StoreError::Operation("timeout".to_string()))).unwrap_err();
    assert_eq!(e.message, "Task listing failed. timeout");
    let ok = respond_list(Ok(vec![sample_task()])).unwrap();
    assert_eq!(ok.len(), 1);
    assert_eq!(ok[0].name, "sample");
    let ok = respond_update(Ok(sample_task())).unwrap();
    assert_eq!(ok.id, 7);
}

#[test]
fn prepared_changes() {
    assert!(prepare_create(None, now()).is_none());
    let n = prepare_create(Some("n".to_string()), now()).unwrap();
    assert_eq!(n.name, "n");
    assert_eq!(n.created_at, now());
    let u = prepare_update(None, Some(true), now());
    assert_eq!(u.done, Some(true));
    assert_eq!(u.done_at, Some(Some(now())));
    assert_eq!(u.name, None);
    let u = prepare_update(Some("x".to_string()), Some(false), now());
    assert_eq!(u.done_at, Some(None));
    assert_eq!(u.name, Some("x".to_string()));
    let u = prepare_update(None, None, now());
    assert_eq!(u.done_at, None);
    assert_eq!(u.done, None);
    let changed = apply_update(sample_task(), &UpdateTask { name: Some("z".to_string()), done_at: Some(None), done: Some(false) });
    assert_eq!(changed.name, "z");
    assert_eq!(changed.done_at, None);
    assert!(!changed.done);
    assert_eq!(changed.id, 7);
}
