use qgt::tag::{CreateTagInput, Tag, UpdateTagInput};
use qgt::todo::{CreateTodoInput, Todo, UpdateTodoInput};
use qgt::update::{Entry, Field, UpdateDocument};
use qgt::values::{DateTime, MaybeUndefined, ObjectId};

fn id(n: u8) -> ObjectId {
    ObjectId { bytes: [n; 12] }
}

fn at(millis: i64) -> DateTime {
    DateTime { millis }
}

fn todo_input(tags: MaybeUndefined<Vec<ObjectId>>) -> UpdateTodoInput {
    UpdateTodoInput { completed: None, id: id(9), order: None, tags, title: None }
}

fn stored_todo(tags: Option<Vec<ObjectId>>) -> Todo {
    Todo {
        created: at(1_000),
        completed: false,
        id: Some(id(9)),
        modified: None,
        order: 3,
        tags,
        title: String::from("write tests"),
    }
}

#[test]
fn todo_update_with_only_id_sets_only_modified() {
    let u = todo_input(MaybeUndefined::Undefined).update_document_at(at(5));
    assert_eq!(u.set, vec![Entry::Modified(at(5))]);
    assert!(u.unset.is_empty());
}

#[test]
fn tag_update_with_only_id_sets_only_modified() {
    let input = UpdateTagInput { id: id(1), name: None };
    let u = input.update_document_at(at(7));
    assert_eq!(u.set, vec![Entry::Modified(at(7))]);
    assert!(u.unset.is_empty());
}

#[test]
fn tag_update_with_name_sets_name() {
    let input = UpdateTagInput { id: id(1), name: Some(String::from("home")) };
    let u = input.update_document_at(at(7));
    assert_eq!(u.set, vec![Entry::Modified(at(7)), Entry::Name(String::from("home"))]);
    assert!(u.unset.is_empty());
}

#[test]
fn todo_update_with_null_tags_unsets_tags() {
    let u = todo_input(MaybeUndefined::Null).update_document_at(at(5));
    assert_eq!(u.unset, vec![Field::Tags]);
    assert!(u.set.iter().all(|e| e.field() != Field::Tags));
}

#[test]
fn todo_update_with_tag_list_sets_that_list() {
    let u = todo_input(MaybeUndefined::Value(vec![id(1), id(2)])).update_document_at(at(5));
    assert_eq!(u.set, vec![Entry::Modified(at(5)), Entry::Tags(vec![id(1), id(2)])]);
    assert!(u.unset.is_empty());
}

#[test]
fn todo_update_with_empty_tag_list_sets_empty_list() {
    let u = todo_input(MaybeUndefined::Value(vec![])).update_document_at(at(5));
    assert_eq!(u.set, vec![Entry::Modified(at(5)), Entry::Tags(vec![])]);
    assert!(u.unset.is_empty());
}

#[test]
fn todo_update_with_omitted_tags_leaves_tags_alone() {
    let input = UpdateTodoInput {
        completed: Some(true),
        id: id(9),
        order: None,
        tags: MaybeUndefined::Undefined,
        title: Some(String::from("done")),
    };
    let u = input.update_document_at(at(5));
    assert!(u.set.iter().all(|e| e.field() != Field::Tags));
    assert!(u.unset.is_empty());
}

#[test]
fn todo_update_with_every_field_in_order() {
    let input = UpdateTodoInput {
        completed: Some(true),
        id: id(9),
        order: Some(4_000_000_000),
        tags: MaybeUndefined::Value(vec![id(3)]),
        title: Some(String::from("shop")),
    };
    let u = input.update_document_at(at(-12));
    assert_eq!(
        u.set,
        vec![
            Entry::Modified(at(-12)),
            Entry::Completed(true),
            Entry::Order(4_000_000_000),
            Entry::Tags(vec![id(3)]),
            Entry::Title(String::from("shop")),
        ]
    );
    assert!(u.unset.is_empty());
}

#[test]
fn stamped_update_carries_a_current_time() {
    let u = todo_input(MaybeUndefined::Undefined).update_document();
    assert_eq!(u.set.len(), 1);
    match &u.set[0] {
        Entry::Modified(d) => assert!(d.millis > 1_577_836_800_000),
        other => panic!("unexpected entry {:?}", other),
    }
}

#[test]
fn field_keys() {
    assert_eq!(Field::Completed.key(), "completed");
    assert_eq!(Field::Modified.key(), "modified");
    assert_eq!(Field::Name.key(), "name");
    assert_eq!(Field::Order.key(), "order");
    assert_eq!(Field::Tags.key(), "tags");
    assert_eq!(Field::Title.key(), "title");
    assert_eq!(Entry::Order(1).field(), Field::Order);
}

#[test]
fn applying_an_update_twice_keeps_the_values() {
    let input = UpdateTodoInput {
        completed: Some(true),
        id: id(9),
        order: Some(8),
        tags: MaybeUndefined::Null,
        title: None,
    };
    let u = input.update_document_at(at(50));
    let mut once = stored_todo(Some(vec![id(1)]));
    once.apply_update(&u);
    let mut twice = once.clone();
    twice.apply_update(&u);
    assert_eq!(once, twice);
    assert_eq!(once.modified, Some(at(50)));
}

#[test]
fn later_update_advances_modified() {
    let mut t = stored_todo(None);
    t.apply_update(&todo_input(MaybeUndefined::Undefined).update_document_at(at(50)));
    t.apply_update(&todo_input(MaybeUndefined::Undefined).update_document_at(at(60)));
    assert_eq!(t.modified, Some(at(60)));
    assert_eq!(t.title, "write tests");
    assert_eq!(t.order, 3);
}

#[test]
fn create_tag_work() {
    let t = Tag::from_input_at(CreateTagInput { name: String::from("work") }, at(42));
    assert_eq!(t.name, "work");
    assert_eq!(t.created, at(42));
    assert_eq!(t.id, None);
    assert_eq!(t.modified, None);
}

#[test]
fn create_tag_stamps_current_time() {
    let t = Tag::from_input(CreateTagInput { name: String::from("work") });
    assert!(t.created.millis > 1_577_836_800_000);
    assert_eq!(t.modified, None);
}

#[test]
fn create_todo_keeps_input() {
    let input = CreateTodoInput {
        completed: false,
        order: 2,
        tags: Some(vec![id(4)]),
        title: String::from("read"),
    };
    let t = Todo::from_input_at(input, at(3));
    assert_eq!(t.created, at(3));
    assert_eq!(t.id, None);
    assert_eq!(t.modified, None);
    assert_eq!(t.order, 2);
    assert_eq!(t.tags, Some(vec![id(4)]));
    assert_eq!(t.title, "read");
    assert!(!t.completed);
    let now = Todo::from_input(CreateTodoInput {
        completed: true,
        order: 0,
        tags: None,
        title: String::from("x"),
    });
    assert!(now.created.millis > 1_577_836_800_000);
}

#[test]
fn update_todo_with_null_tags_removes_stored_tags() {
    let mut t = stored_todo(Some(vec![id(1), id(2)]));
    t.apply_update(&todo_input(MaybeUndefined::Null).update_document_at(at(77)));
    assert_eq!(t.tags, None);
    assert_eq!(t.modified, Some(at(77)));
    assert_eq!(t.id, Some(id(9)));
    assert_eq!(t.created, at(1_000));
}

#[test]
fn update_todo_with_tag_list_replaces_stored_tags() {
    let mut t = stored_todo(Some(vec![id(1), id(2)]));
    t.apply_update(&todo_input(MaybeUndefined::Value(vec![id(5)])).update_document_at(at(8)));
    assert_eq!(t.tags, Some(vec![id(5)]));
}

#[test]
fn update_tag_renames() {
    let mut t = Tag::from_input_at(CreateTagInput { name: String::from("work") }, at(1));
    let u = UpdateTagInput { id: id(1), name: Some(String::from("job")) }.update_document_at(at(2));
    t.apply_update(&u);
    assert_eq!(t.name, "job");
    assert_eq!(t.modified, Some(at(2)));
    assert_eq!(t.created, at(1));
}

#[test]
fn later_entries_win_when_applied() {
    let u = UpdateDocument {
        set: vec![Entry::Title(String::from("a")), Entry::Title(String::from("b"))],
        unset: vec![],
    };
    let mut t = stored_todo(None);
    t.apply_update(&u);
    assert_eq!(t.title, "b");
    assert_eq!(t.modified, None);
}
