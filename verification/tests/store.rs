use todo_store::{Error, ModelController, Pagination, PatchTodo, PostTodo, Todo};

fn post(title: &str, description: Option<&str>) -> PostTodo {
    PostTodo {
        title: title.to_string(),
        description: description.map(|d| d.to_string()),
        completed: None,
    }
}

fn all() -> Pagination {
    Pagination { offset: None, fetch: None }
}

fn window(offset: usize, fetch: usize) -> Pagination {
    Pagination { offset: Some(offset), fetch: Some(fetch) }
}

fn ids_of(items: &[Todo]) -> Vec<u128> {
    items.iter().map(|t| t.id()).collect()
}

fn titles_of(items: &[Todo]) -> Vec<String> {
    items.iter().map(|t| t.title().to_string()).collect()
}

/// A store that holds the items "a", "b", "c", "d", "e" under the
/// identifiers 1 to 5, in that order.
fn five() -> ModelController {
    let mut store = ModelController::new();
    let titles: [&str; 5] = ["a", "b", "c", "d", "e"];
    let mut id: u128 = 1;
    for title in titles {
        store.post_todo_with_id(id, post(title, None)).unwrap();
        id += 1;
    }
    store
}

#[test]
fn new_store_is_empty() {
    let store = ModelController::new();
    assert_eq!(store.get_todos(all()).unwrap().len(), 0);
}

#[test]
fn create_buy_milk_then_rename() {
    let mut store = ModelController::new();
    let created = store.post_todo(post("Buy milk", Some("2%"))).unwrap();
    assert_ne!(created.id(), 0);
    assert_eq!(created.title(), "Buy milk");
    assert_eq!(created.description(), Some("2%"));
    assert!(!created.completed());

    let info = PatchTodo { title: Some("Buy oat milk".to_string()), description: None, completed: None };
    let patched = store.patch_todo(created.id(), info).unwrap();
    assert_eq!(patched.id(), created.id());
    assert_eq!(patched.title(), "Buy oat milk");
    assert_eq!(patched.description(), None);
    assert!(!patched.completed());

    let listed = store.get_todos(all()).unwrap();
    assert_eq!(listed.len(), 1);
    assert_eq!(listed[0], patched);
}

#[test]
fn create_then_complete_keeps_title_and_clears_description() {
    let mut store = ModelController::new();
    let created = store.post_todo(post("A", Some("with a description"))).unwrap();
    let info = PatchTodo { title: None, description: None, completed: Some(true) };
    let patched = store.patch_todo(created.id(), info).unwrap();
    assert_eq!(patched.title(), "A");
    assert!(patched.completed());
    assert_eq!(patched.description(), None);
}

#[test]
fn create_then_complete_without_description() {
    let mut store = ModelController::new();
    let created = store.post_todo(post("A", None)).unwrap();
    let info = PatchTodo { title: None, description: None, completed: Some(true) };
    let patched = store.patch_todo(created.id(), info).unwrap();
    assert_eq!(patched.title(), "A");
    assert!(patched.completed());
    assert_eq!(patched.description(), None);
}

#[test]
fn delete_unknown_id_echoes_the_id() {
    let mut store = ModelController::new();
    let unknown: u128 = 0x67e5_5044_10b1_426f_9247_bb68_0e5f_e0c8;
    assert_eq!(store.delete_todo(unknown), Err(Error::DeleteTodoNotFound { id: unknown }));
}

#[test]
fn delete_unknown_id_leaves_the_store_unchanged() {
    let mut store = five();
    let before = store.get_todos(all()).unwrap();
    assert_eq!(store.delete_todo(6), Err(Error::DeleteTodoNotFound { id: 6 }));
    assert_eq!(store.delete_todo(0), Err(Error::DeleteTodoNotFound { id: 0 }));
    assert_eq!(store.get_todos(all()).unwrap(), before);
}

#[test]
fn patch_unknown_id_fails_and_leaves_the_store_unchanged() {
    let mut store = five();
    let before = store.get_todos(all()).unwrap();
    let info = PatchTodo { title: Some("x".to_string()), description: Some("y".to_string()), completed: Some(true) };
    assert_eq!(store.patch_todo(42, info), Err(Error::PatchTodoNotFound { id: 42 }));
    assert_eq!(store.get_todos(all()).unwrap(), before);
}

#[test]
fn patch_on_empty_store_is_not_found() {
    let mut store = ModelController::new();
    let info = PatchTodo { title: None, description: None, completed: None };
    assert_eq!(store.patch_todo(1, info), Err(Error::PatchTodoNotFound { id: 1 }));
    assert_eq!(store.get_todos(all()).unwrap().len(), 0);
}

#[test]
fn delete_returns_the_item_and_removes_it() {
    let mut store = five();
    let deleted = store.delete_todo(3).unwrap();
    assert_eq!(deleted.id(), 3);
    assert_eq!(deleted.title(), "c");
    let listed = store.get_todos(all()).unwrap();
    assert_eq!(ids_of(&listed), vec![1u128, 2, 4, 5]);
    assert_eq!(titles_of(&listed), vec!["a", "b", "d", "e"]);
}

#[test]
fn deleted_item_is_not_found_again() {
    let mut store = five();
    store.delete_todo(2).unwrap();
    assert_eq!(store.delete_todo(2), Err(Error::DeleteTodoNotFound { id: 2 }));
    let info = PatchTodo { title: Some("again".to_string()), description: None, completed: None };
    assert_eq!(store.patch_todo(2, info), Err(Error::PatchTodoNotFound { id: 2 }));
    let listed = store.get_todos(all()).unwrap();
    assert!(!ids_of(&listed).contains(&2));
    assert_eq!(listed.len(), 4);
}

#[test]
fn delete_returns_the_last_patched_state() {
    let mut store = five();
    let info = PatchTodo { title: Some("B".to_string()), description: Some("big".to_string()), completed: Some(true) };
    let patched = store.patch_todo(2, info).unwrap();
    let deleted = store.delete_todo(2).unwrap();
    assert_eq!(deleted, patched);
    assert_eq!(deleted.title(), "B");
    assert_eq!(deleted.description(), Some("big"));
    assert!(deleted.completed());
}

#[test]
fn deleted_id_is_never_issued_again() {
    let mut store = five();
    store.delete_todo(4).unwrap();
    assert_eq!(store.post_todo_with_id(4, post("again", None)), Err(Error::DatabaseInternalFatal));
    assert_eq!(ids_of(&store.get_todos(all()).unwrap()), vec![1u128, 2, 3, 5]);
}

#[test]
fn stored_id_is_refused_for_a_second_item() {
    let mut store = five();
    assert_eq!(store.post_todo_with_id(1, post("twice", None)), Err(Error::DatabaseInternalFatal));
    let listed = store.get_todos(all()).unwrap();
    assert_eq!(titles_of(&listed), vec!["a", "b", "c", "d", "e"]);
}

#[test]
fn post_with_id_stores_the_item_last() {
    let mut store = five();
    let created = store.post_todo_with_id(9, post("f", Some("last"))).unwrap();
    assert_eq!(created.id(), 9);
    assert_eq!(created.title(), "f");
    assert_eq!(created.description(), Some("last"));
    assert!(!created.completed());
    let listed = store.get_todos(all()).unwrap();
    assert_eq!(ids_of(&listed), vec![1u128, 2, 3, 4, 5, 9]);
    assert_eq!(listed[5], created);
}

#[test]
fn store_ignores_the_completed_flag_of_a_create() {
    let mut store = ModelController::new();
    let payload = PostTodo { title: "done already".to_string(), description: None, completed: Some(true) };
    let created = store.post_todo(payload).unwrap();
    assert!(!created.completed());
    let payload = PostTodo { title: "done too".to_string(), description: None, completed: Some(true) };
    let created = store.post_todo_with_id(5, payload).unwrap();
    assert!(!created.completed());
}

#[test]
fn created_ids_are_unique() {
    let mut store = ModelController::new();
    let mut seen: Vec<u128> = Vec::new();
    let mut round: usize = 0;
    while round < 200 {
        let created = store.post_todo(post("t", None)).unwrap();
        assert!(!seen.contains(&created.id()));
        seen.push(created.id());
        if round % 3 == 0 {
            store.delete_todo(created.id()).unwrap();
        }
        round += 1;
    }
    assert_eq!(seen.len(), 200);
    assert_eq!(store.get_todos(all()).unwrap().len(), 133);
}

#[test]
fn created_ids_are_random_uuids() {
    let mut store = ModelController::new();
    let first = store.post_todo(post("one", None)).unwrap();
    let second = store.post_todo(post("two", None)).unwrap();
    assert_ne!(first.id(), second.id());
    for id in [first.id(), second.id()] {
        let as_uuid = uuid::Uuid::from_u128(id);
        assert_eq!(as_uuid.get_version_num(), 4);
        assert_eq!(as_uuid.get_variant(), uuid::Variant::RFC4122);
        assert!(!as_uuid.is_nil());
        assert_eq!(id & 0x0000_0000_0000_f000_c000_0000_0000_0000, 0x0000_0000_0000_4000_8000_0000_0000_0000);
    }
}

#[test]
fn list_window_skips_and_limits() {
    let store = five();
    let listed = store.get_todos(window(1, 2)).unwrap();
    assert_eq!(ids_of(&listed), vec![2u128, 3]);
    let listed = store.get_todos(window(0, 5)).unwrap();
    assert_eq!(ids_of(&listed), vec![1u128, 2, 3, 4, 5]);
    let listed = store.get_todos(window(4, 1)).unwrap();
    assert_eq!(ids_of(&listed), vec![5u128]);
}

#[test]
fn list_window_is_cut_at_the_end_of_the_store() {
    let store = five();
    let listed = store.get_todos(window(3, 10)).unwrap();
    assert_eq!(ids_of(&listed), vec![4u128, 5]);
    let listed = store.get_todos(window(0, usize::MAX)).unwrap();
    assert_eq!(listed.len(), 5);
    let listed = store.get_todos(window(2, usize::MAX)).unwrap();
    assert_eq!(ids_of(&listed), vec![3u128, 4, 5]);
}

#[test]
fn list_is_empty_when_skip_reaches_the_size() {
    let store = five();
    assert_eq!(store.get_todos(window(5, 3)).unwrap().len(), 0);
    assert_eq!(store.get_todos(window(6, 3)).unwrap().len(), 0);
    assert_eq!(store.get_todos(window(usize::MAX, usize::MAX)).unwrap().len(), 0);
    assert_eq!(store.get_todos(Pagination { offset: Some(5), fetch: None }).unwrap().len(), 0);
}

#[test]
fn list_with_zero_limit_is_empty() {
    let store = five();
    assert_eq!(store.get_todos(window(0, 0)).unwrap().len(), 0);
    assert_eq!(store.get_todos(window(2, 0)).unwrap().len(), 0);
}

#[test]
fn list_defaults_skip_nothing_and_return_everything() {
    let store = five();
    let listed = store.get_todos(all()).unwrap();
    assert_eq!(titles_of(&listed), vec!["a", "b", "c", "d", "e"]);
    let listed = store.get_todos(Pagination { offset: Some(3), fetch: None }).unwrap();
    assert_eq!(titles_of(&listed), vec!["d", "e"]);
    let listed = store.get_todos(Pagination { offset: None, fetch: Some(2) }).unwrap();
    assert_eq!(titles_of(&listed), vec!["a", "b"]);
}

#[test]
fn list_length_is_the_smaller_of_limit_and_rest() {
    let store = five();
    let mut skip: usize = 0;
    while skip <= 7 {
        let mut max: usize = 0;
        while max <= 7 {
            let rest: usize = if skip >= 5 { 0 } else { 5 - skip };
            let expected: usize = if max < rest { max } else { rest };
            let listed = store.get_todos(window(skip, max)).unwrap();
            assert_eq!(listed.len(), expected);
            let mut k: usize = 0;
            while k < listed.len() {
                assert_eq!(listed[k].id(), (skip + k + 1) as u128);
                k += 1;
            }
            max += 1;
        }
        skip += 1;
    }
}

#[test]
fn list_returns_copies() {
    let mut store = five();
    let before = store.get_todos(all()).unwrap();
    let info = PatchTodo { title: Some("changed".to_string()), description: None, completed: None };
    store.patch_todo(1, info).unwrap();
    assert_eq!(before[0].title(), "a");
    assert_eq!(store.get_todos(all()).unwrap()[0].title(), "changed");
}

#[test]
fn patch_keeps_position_and_other_items() {
    let mut store = five();
    let info = PatchTodo { title: Some("C".to_string()), description: Some("third".to_string()), completed: Some(true) };
    let patched = store.patch_todo(3, info).unwrap();
    assert_eq!(patched.id(), 3);
    let listed = store.get_todos(all()).unwrap();
    assert_eq!(ids_of(&listed), vec![1u128, 2, 3, 4, 5]);
    assert_eq!(titles_of(&listed), vec!["a", "b", "C", "d", "e"]);
    assert_eq!(listed[2], patched);
    assert_eq!(listed[2].description(), Some("third"));
    assert!(listed[2].completed());
    assert!(!listed[1].completed());
}

#[test]
fn patch_without_fields_clears_only_the_description() {
    let mut store = ModelController::new();
    store.post_todo_with_id(1, post("keep", Some("drop"))).unwrap();
    let info = PatchTodo { title: None, description: None, completed: Some(true) };
    store.patch_todo(1, info).unwrap();
    let info = PatchTodo { title: None, description: None, completed: None };
    let patched = store.patch_todo(1, info).unwrap();
    assert_eq!(patched.title(), "keep");
    assert_eq!(patched.description(), None);
    assert!(patched.completed());
}

#[test]
fn create_succeeds_where_no_random_id_was_issued() {
    let mut fresh = ModelController::new();
    assert!(fresh.post_todo(post("first", None)).is_ok());

    let mut store = five();
    store.delete_todo(2).unwrap();
    let created = store.post_todo(post("sixth", Some("drawn"))).unwrap();
    assert_eq!(created.title(), "sixth");
    assert_eq!(created.description(), Some("drawn"));
    let listed = store.get_todos(all()).unwrap();
    assert_eq!(listed.len(), 5);
    assert_eq!(listed[4], created);
}
