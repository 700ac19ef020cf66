use todo_api::{
    create_todo, delete_todo, get_todo, get_todos, update_todo, HttpReply, ReplyBody, StoreError,
    Todo, TodoInput, TodoTable, STATUS_NOT_FOUND, STATUS_OK, STATUS_SERVER_ERROR,
};

fn input(title: &str) -> TodoInput {
    TodoInput { title: title.to_string() }
}

fn record(id: i32, title: &str, completed: bool) -> Todo {
    Todo { id, title: title.to_string(), completed }
}

#[test]
fn create_returns_titled_incomplete_record_with_positive_id() {
    let mut table = TodoTable::new();
    let created = table.create(input("Buy milk")).unwrap();
    assert_eq!(created.title, "Buy milk");
    assert!(!created.completed);
    assert!(created.id > 0);
    let reply = create_todo(Ok(created.clone()));
    assert_eq!(reply.status, 200);
    assert_eq!(reply.body, ReplyBody::Record(created));
}

#[test]
fn identifiers_start_at_one_and_increase() {
    let mut table = TodoTable::new();
    let a = table.create(input("a")).unwrap();
    let b = table.create(input("b")).unwrap();
    assert_eq!(a.id, 1);
    assert_eq!(b.id, 2);
}

#[test]
fn list_after_creates_returns_one_record_per_creation() {
    let mut table = TodoTable::new();
    let titles = ["one", "two", "three"];
    let mut created = Vec::new();
    for t in titles.iter() {
        created.push(table.create(input(t)).unwrap());
    }
    let listed = table.list();
    assert_eq!(listed.len(), 3);
    assert_eq!(listed, created);
    for (row, t) in listed.iter().zip(titles.iter()) {
        assert_eq!(row.title, *t);
        assert!(!row.completed);
    }
    let reply = get_todos(Ok(listed.clone()));
    assert_eq!(reply.status, STATUS_OK);
    assert_eq!(reply.body, ReplyBody::Records(listed));
}

#[test]
fn list_of_empty_table_is_empty() {
    let table = TodoTable::new();
    assert!(table.list().is_empty());
    let reply = get_todos(Ok(table.list()));
    assert_eq!(reply.status, 200);
    assert_eq!(reply.body, ReplyBody::Records(Vec::new()));
}

#[test]
fn get_never_assigned_id_is_not_found() {
    let mut table = TodoTable::new();
    table.create(input("Buy milk")).unwrap();
    let found = table.get(999999);
    assert_eq!(found, None);
    let reply = get_todo(Ok(found));
    assert_eq!(reply.status, 404);
    assert_eq!(reply.body, ReplyBody::Text("Todo not found"));
}

#[test]
fn update_changes_only_the_title() {
    let mut table = TodoTable::new();
    let first = table.create(input("first")).unwrap();
    let second = table.create(input("second")).unwrap();
    let updated = table.update(first.id, "renamed".to_string());
    assert_eq!(updated, Some(record(first.id, "renamed", false)));
    assert_eq!(table.get(first.id), Some(record(first.id, "renamed", false)));
    assert_eq!(table.get(second.id), Some(second));
    let reply = update_todo(Ok(updated));
    assert_eq!(reply.status, 200);
    assert_eq!(reply.body, ReplyBody::Record(record(first.id, "renamed", false)));
}

#[test]
fn update_missing_is_not_found_and_creates_nothing() {
    let mut table = TodoTable::new();
    table.create(input("kept")).unwrap();
    let updated = table.update(42, "ghost".to_string());
    assert_eq!(updated, None);
    assert_eq!(table.list(), vec![record(1, "kept", false)]);
    assert_eq!(table.get(42), None);
    let reply = update_todo(Ok(updated));
    assert_eq!(reply.status, STATUS_NOT_FOUND);
    assert_eq!(reply.body, ReplyBody::Text("Todo not found"));
}

#[test]
fn delete_existing_then_get_is_not_found() {
    let mut table = TodoTable::new();
    let a = table.create(input("a")).unwrap();
    let b = table.create(input("b")).unwrap();
    let count = table.delete(a.id);
    assert_eq!(count, 1);
    let reply = delete_todo(Ok(count));
    assert_eq!(reply.status, 200);
    assert_eq!(reply.body, ReplyBody::Text("Todo deleted"));
    assert_eq!(get_todo(Ok(table.get(a.id))).status, 404);
    assert_eq!(table.list(), vec![b]);
}

#[test]
fn deleted_id_is_not_reused() {
    let mut table = TodoTable::new();
    let a = table.create(input("a")).unwrap();
    table.delete(a.id);
    let b = table.create(input("b")).unwrap();
    assert_eq!(b.id, 2);
    assert_eq!(table.get(a.id), None);
}

#[test]
fn delete_missing_affects_no_row() {
    let mut table = TodoTable::new();
    table.create(input("a")).unwrap();
    let count = table.delete(7);
    assert_eq!(count, 0);
    assert_eq!(table.list().len(), 1);
    let reply = delete_todo(Ok(count));
    assert_eq!(reply.status, 404);
    assert_eq!(reply.body, ReplyBody::Text("Todo not found"));
}

#[test]
fn create_then_get_round_trip() {
    let mut table = TodoTable::new();
    let created = table.create(input("Round trip")).unwrap();
    let fetched = table.get(created.id);
    assert_eq!(fetched, Some(created.clone()));
    let from_create = create_todo(Ok(created));
    let from_get = get_todo(Ok(fetched));
    assert_eq!(from_create, from_get);
}

#[test]
fn store_errors_answer_server_error() {
    let expected = |reply: HttpReply, text: &'static str| {
        assert_eq!(reply.status, STATUS_SERVER_ERROR);
        assert_eq!(reply.body, ReplyBody::Text(text));
    };
    expected(create_todo(Err(StoreError)), "Error saving new todo");
    expected(get_todos(Err(StoreError)), "Error loading todos");
    expected(get_todo(Err(StoreError)), "Error loading todo");
    expected(update_todo(Err(StoreError)), "Error updating todo");
    expected(delete_todo(Err(StoreError)), "Error deleting todo");
}

#[test]
fn empty_title_is_accepted() {
    let mut table = TodoTable::new();
    let created = table.create(input("")).unwrap();
    assert_eq!(created.title, "");
    assert_eq!(table.get(created.id), Some(created));
}
