use task_store::{
    create_task, create_task_with_id, delete_task, find_all, find_task_by_id, seeded_store,
    update_task, Body, NewTask, Response, TaskStore, ID_LIMIT, STATUS_NOT_FOUND,
    STATUS_NO_CONTENT, STATUS_OK,
};

fn new_task(description: &str, status: bool) -> NewTask {
    NewTask::new(description.to_string(), status)
}

fn one(r: &Response) -> (i32, String, bool) {
    match &r.body {
        Body::One(t) => (t.id, t.description.clone(), t.status),
        other => panic!("expected one task, got {:?}", other),
    }
}

fn message(r: &Response) -> String {
    match &r.body {
        Body::Message(m) => m.clone(),
        other => panic!("expected a message, got {:?}", other),
    }
}

fn listed_ids(r: &Response) -> Vec<i32> {
    match &r.body {
        Body::Many(v) => {
            let mut ids: Vec<i32> = v.iter().map(|t| t.id).collect();
            ids.sort();
            ids
        }
        other => panic!("expected a list, got {:?}", other),
    }
}

#[test]
fn seeded_scenario() {
    let mut store = seeded_store();
    let r = find_task_by_id(&store, 1);
    assert_eq!(r.status, 200);
    assert_eq!(one(&r), (1, "wash clothes".to_string(), false));

    let r = update_task(&mut store, 1, new_task("wash clothes", true));
    assert_eq!(r.status, 204);
    assert!(matches!(r.body, Body::Empty));
    let r = find_task_by_id(&store, 1);
    assert_eq!(r.status, 200);
    assert_eq!(one(&r), (1, "wash clothes".to_string(), true));

    let r = delete_task(&mut store, 2);
    assert_eq!(r.status, 200);
    assert!(matches!(r.body, Body::Empty));
    let r = find_task_by_id(&store, 2);
    assert_eq!(r.status, 404);

    let r = find_task_by_id(&store, 99);
    assert_eq!(r.status, 404);
    assert_eq!(message(&r), "task not found");
}

#[test]
fn seeded_store_lists_both_tasks() {
    let store = seeded_store();
    let r = find_all(&store);
    assert_eq!(r.status, STATUS_OK);
    assert_eq!(listed_ids(&r), vec![1, 2]);
}

#[test]
fn create_draws_id_in_range_and_is_found() {
    let mut store = TaskStore::new();
    for _ in 0..50 {
        let r = create_task(&mut store, new_task("write report", true));
        assert_eq!(r.status, STATUS_OK);
        let (id, description, status) = one(&r);
        assert!(0 <= id && id < ID_LIMIT);
        assert_eq!(description, "write report");
        assert!(status);
        let found = find_task_by_id(&store, id);
        assert_eq!(found.status, STATUS_OK);
        assert_eq!(one(&found), (id, "write report".to_string(), true));
    }
}

#[test]
fn create_with_id_round_trips() {
    let mut store = TaskStore::new();
    let r = create_task_with_id(&mut store, new_task("feed the cat", false), 7);
    assert_eq!(one(&r), (7, "feed the cat".to_string(), false));
    let r = find_task_by_id(&store, 7);
    assert_eq!(one(&r), (7, "feed the cat".to_string(), false));
}

#[test]
fn colliding_ids_keep_the_later_task() {
    let mut store = TaskStore::new();
    create_task_with_id(&mut store, new_task("first", false), 5);
    create_task_with_id(&mut store, new_task("second", true), 5);
    create_task_with_id(&mut store, new_task("third", false), 6);
    let r = find_all(&store);
    assert_eq!(listed_ids(&r), vec![5, 6]);
    assert_eq!(one(&find_task_by_id(&store, 5)), (5, "second".to_string(), true));
    assert_eq!(one(&find_task_by_id(&store, 6)), (6, "third".to_string(), false));
}

#[test]
fn delete_of_missing_id_is_not_found_every_time() {
    let mut store = seeded_store();
    assert_eq!(delete_task(&mut store, 42).status, STATUS_NOT_FOUND);
    assert_eq!(delete_task(&mut store, 42).status, STATUS_NOT_FOUND);
    assert_eq!(listed_ids(&find_all(&store)), vec![1, 2]);
}

#[test]
fn second_delete_is_not_found() {
    let mut store = seeded_store();
    assert_eq!(delete_task(&mut store, 1).status, STATUS_OK);
    assert_eq!(delete_task(&mut store, 1).status, STATUS_NOT_FOUND);
    assert_eq!(listed_ids(&find_all(&store)), vec![2]);
}

#[test]
fn update_of_missing_id_creates_nothing() {
    let mut store = seeded_store();
    let r = update_task(&mut store, 3, new_task("mop floor", true));
    assert_eq!(r.status, STATUS_NOT_FOUND);
    assert!(matches!(r.body, Body::Empty));
    assert_eq!(listed_ids(&find_all(&store)), vec![1, 2]);
    assert_eq!(find_task_by_id(&store, 3).status, STATUS_NOT_FOUND);
}

#[test]
fn update_of_existing_id_replaces_fields_only() {
    let mut store = seeded_store();
    let r = update_task(&mut store, 2, new_task("sweep porch", true));
    assert_eq!(r.status, STATUS_NO_CONTENT);
    assert_eq!(one(&find_task_by_id(&store, 2)), (2, "sweep porch".to_string(), true));
    assert_eq!(one(&find_task_by_id(&store, 1)), (1, "wash clothes".to_string(), false));
}

#[test]
fn listing_an_empty_store_sends_a_message() {
    let mut store = TaskStore::new();
    let r = find_all(&store);
    assert_eq!(r.status, STATUS_OK);
    assert_eq!(message(&r), "no tasks registered");
    create_task_with_id(&mut store, new_task("x", false), 0);
    delete_task(&mut store, 0);
    assert_eq!(message(&find_all(&store)), "no tasks registered");
}

#[test]
fn ids_at_the_ends_of_the_range() {
    let mut store = TaskStore::new();
    create_task_with_id(&mut store, new_task("low", false), 0);
    create_task_with_id(&mut store, new_task("high", true), ID_LIMIT - 1);
    assert_eq!(listed_ids(&find_all(&store)), vec![0, 999]);
    assert_eq!(one(&find_task_by_id(&store, 999)), (999, "high".to_string(), true));
}
