//! Todo records, the inputs that create and change them, and how an update
//! instruction changes a stored todo.

use vstd::prelude::*;

use crate::update::{
    copy_ids, distinct_fields, last_set, lemma_append_entry, lemma_sets_field_iff, only_stamp,
    optional_entry, set_view, sets_field, stamp, Entry, EntryView, Field, UpdateDocument,
    UpdateView,
};
use crate::values::{DateTime, MaybeUndefined, ObjectId};

verus! {

/// A todo as the document store holds it.
#[derive(Clone, Debug, PartialEq, Eq)]
pub struct Todo {
    pub created: DateTime,
    pub completed: bool,
    pub id: Option<ObjectId>,
    pub modified: Option<DateTime>,
    pub order: u64,
    pub tags: Option<Vec<ObjectId>>,
    pub title: String,
}

/// The mathematical content of a [`Todo`].
pub struct TodoView {
    pub created: DateTime,
    pub completed: bool,
    pub id: Option<ObjectId>,
    pub modified: Option<DateTime>,
    pub order: u64,
    pub tags: Option<Seq<ObjectId>>,
    pub title: Seq<char>,
}

pub open spec fn ids_view(ids: Option<Vec<ObjectId>>) -> Option<Seq<ObjectId>> {
    match ids {
        Some(v) => Some(v@),
        None => None,
    }
}

impl View for Todo {
    type V = TodoView;

    open spec fn view(&self) -> TodoView {
        TodoView {
            created: self.created,
            completed: self.completed,
            id: self.id,
            modified: self.modified,
            order: self.order,
            tags: ids_view(self.tags),
            title: self.title@,
        }
    }
}

impl TodoView {
    /// The todo after the store has applied `u`: each field takes the value of
    /// the last "set" entry for it, `tags` is
    /// removed when "unset" names it, and every other field keeps its value.
    /// The identifier and the creation time are never changed.
    pub open spec fn apply(self, u: UpdateView) -> TodoView {
        TodoView {
            created: self.created,
            completed: match last_set(u.set, Field::Completed) {
                Some(EntryView::Completed(b)) => b,
                _ => self.completed,
            },
            id: self.id,
            modified: match last_set(u.set, Field::Modified) {
                Some(EntryView::Modified(d)) => Some(d),
                _ => self.modified,
            },
            order: match last_set(u.set, Field::Order) {
                Some(EntryView::Order(n)) => n,
                _ => self.order,
            },
            tags: if u.unset.contains(Field::Tags) {
                None
            } else {
                match last_set(u.set, Field::Tags) {
                    Some(EntryView::Tags(v)) => Some(v),
                    _ => self.tags,
                }
            },
            title: match last_set(u.set, Field::Title) {
                Some(EntryView::Title(t)) => t,
                _ => self.title,
            },
        }
    }
}

/// The input that creates a todo.
#[derive(Clone, Debug, PartialEq, Eq)]
pub struct CreateTodoInput {
    pub completed: bool,
    pub order: u64,
    pub tags: Option<Vec<ObjectId>>,
    pub title: String,
}

/// The input that changes a todo: the identifier of the todo and the fields
/// to change.
#[derive(Clone, Debug, PartialEq, Eq)]
pub struct UpdateTodoInput {
    pub completed: Option<bool>,
    pub id: ObjectId,
    pub order: Option<u32>,
    pub tags: MaybeUndefined<Vec<ObjectId>>,
    pub title: Option<String>,
}

impl UpdateTodoInput {
    /// The instruction that applies this input at time `now`: "set" holds the
    /// stamp `modified = now`, then each given field in the order completed,
    /// order, tags, title; "unset" holds `tags` when it was given as null.
    pub open spec fn spec_update(self, now: DateTime) -> UpdateView {
        UpdateView {
            set: stamp(now) + optional_entry(self.completed_value()) + optional_entry(
                self.order_value(),
            ) + optional_entry(self.tags_value()) + optional_entry(self.title_value()),
            unset: if self.tags is Null {
                seq![Field::Tags]
            } else {
                Seq::empty()
            },
        }
    }

    pub open spec fn completed_value(self) -> Option<EntryView> {
        match self.completed {
            Some(b) => Some(EntryView::Completed(b)),
            None => None,
        }
    }

    pub open spec fn order_value(self) -> Option<EntryView> {
        match self.order {
            Some(n) => Some(EntryView::Order(n as u64)),
            None => None,
        }
    }

    pub open spec fn tags_value(self) -> Option<EntryView> {
        match self.tags {
            MaybeUndefined::Value(v) => Some(EntryView::Tags(v@)),
            _ => None,
        }
    }

    pub open spec fn title_value(self) -> Option<EntryView> {
        match self.title {
            Some(t) => Some(EntryView::Title(t@)),
            None => None,
        }
    }

    /// Only the identifier is given.
    pub open spec fn changes_nothing(self) -> bool {
        &&& self.completed is None
        &&& self.order is None
        &&& self.tags is Undefined
        &&& self.title is None
    }

    /// The update instruction for this input, stamped with the current time.
    pub fn update_document(&self) -> (r: UpdateDocument)
        ensures
            exists|now: DateTime| r@ == self.spec_update(now),
    {
        self.update_document_at(DateTime::now())
    }

    /// The update instruction for this input, stamped with `now`.
    pub fn update_document_at(&self, now: DateTime) -> (r: UpdateDocument)
        ensures
            r@ == self.spec_update(now),
            distinct_fields(r@.set),
            last_set(r@.set, Field::Modified) == Some(EntryView::Modified(now)),
            self.changes_nothing() ==> only_stamp(r@.set, now) && r@.unset.len() == 0,
            self.tags is Null ==> r@.unset.contains(Field::Tags) && !sets_field(
                r@.set,
                Field::Tags,
            ),
            self.tags is Value ==> last_set(r@.set, Field::Tags) == Some(
                EntryView::Tags(self.tags->Value_0@),
            ) && sets_field(r@.set, Field::Tags) && !r@.unset.contains(Field::Tags),
            self.tags is Undefined ==> !sets_field(r@.set, Field::Tags) && !r@.unset.contains(
                Field::Tags,
            ),
    {
        let mut set: Vec<Entry> = Vec::new();
        let mut unset: Vec<Field> = Vec::new();
        set.push(Entry::Modified(now));
        let ghost spec = self.spec_update(now);
        let ghost s = stamp(now);
        assert(set_view(set@) =~= s);
        if let Some(c) = self.completed {
            set.push(Entry::Completed(c));
        }
        proof {
            s = s + optional_entry(self.completed_value());
        }
        assert(set_view(set@) =~= s);
        if let Some(o) = self.order {
            set.push(Entry::Order(o as u64));
        }
        proof {
            s = s + optional_entry(self.order_value());
        }
        assert(set_view(set@) =~= s);
        match &self.tags {
            MaybeUndefined::Undefined => {},
            MaybeUndefined::Null => {
                unset.push(Field::Tags);
            },
            MaybeUndefined::Value(tags) => {
                set.push(Entry::Tags(copy_ids(tags)));
            },
        }
        proof {
            s = s + optional_entry(self.tags_value());
        }
        assert(set_view(set@) =~= s);
        if let Some(t) = &self.title {
            set.push(Entry::Title(t.clone()));
        }
        assert(set_view(set@) =~= spec.set);
        assert(unset@ =~= spec.unset);
        proof {
            lemma_update_todo_fields(*self, now);
        }
        UpdateDocument { set, unset }
    }
}

/// The fields of the synthesized instruction, one at a time.
proof fn lemma_update_todo_fields(input: UpdateTodoInput, now: DateTime)
    ensures
        ({
            let u = input.spec_update(now);
            &&& distinct_fields(u.set)
            &&& last_set(u.set, Field::Modified) == Some(EntryView::Modified(now))
            &&& last_set(u.set, Field::Completed) == input.completed_value()
            &&& last_set(u.set, Field::Order) == input.order_value()
            &&& last_set(u.set, Field::Tags) == input.tags_value()
            &&& last_set(u.set, Field::Title) == input.title_value()
            &&& last_set(u.set, Field::Name) == None::<EntryView>
            &&& (sets_field(u.set, Field::Tags) <==> input.tags is Value)
            &&& (u.unset.contains(Field::Tags) <==> input.tags is Null)
            &&& (input.changes_nothing() ==> only_stamp(u.set, now) && u.unset.len() == 0)
        }),
{
    let e: Seq<EntryView> = Seq::empty();
    lemma_append_entry(e, Field::Modified, Some(EntryView::Modified(now)));
    let s0 = e + optional_entry(Some(EntryView::Modified(now)));
    lemma_append_entry(s0, Field::Completed, input.completed_value());
    let s1 = s0 + optional_entry(input.completed_value());
    lemma_append_entry(s1, Field::Order, input.order_value());
    let s2 = s1 + optional_entry(input.order_value());
    lemma_append_entry(s2, Field::Tags, input.tags_value());
    let s3 = s2 + optional_entry(input.tags_value());
    lemma_append_entry(s3, Field::Title, input.title_value());
    let s4 = s3 + optional_entry(input.title_value());
    assert(s0 =~= stamp(now));
    let u = input.spec_update(now);
    assert(u.set =~= s4);
    lemma_sets_field_iff(s4, Field::Tags);
    if input.tags is Null {
        assert(u.unset[0] == Field::Tags);
    }
}

/// Applying the same update instruction twice leaves a todo as applying it
/// once does.
pub proof fn lemma_todo_apply_idempotent(t: TodoView, u: UpdateView)
    ensures
        t.apply(u).apply(u) == t.apply(u),
{
}

/// What the instruction synthesized from `input` at `now` does to a stored
/// todo: `modified` becomes `now`, each given field takes the given value,
/// `tags` is removed when given as null and replaced when given a list, and
/// every other field keeps its value.
pub proof fn lemma_todo_update_effect(t: TodoView, input: UpdateTodoInput, now: DateTime)
    ensures
        ({
            let r = t.apply(input.spec_update(now));
            &&& r.created == t.created
            &&& r.id == t.id
            &&& r.modified == Some(now)
            &&& r.completed == match input.completed {
                Some(b) => b,
                None => t.completed,
            }
            &&& r.order == match input.order {
                Some(n) => n as u64,
                None => t.order,
            }
            &&& r.tags == match input.tags {
                MaybeUndefined::Undefined => t.tags,
                MaybeUndefined::Null => None,
                MaybeUndefined::Value(v) => Some(v@),
            }
            &&& r.title == match input.title {
                Some(x) => x@,
                None => t.title,
            }
        }),
{
    lemma_update_todo_fields(input, now);
}

impl Todo {
    /// A new todo from `input`, created at `now`, not yet stored: it has no
    /// identifier and has never been modified.
    pub fn from_input_at(input: CreateTodoInput, now: DateTime) -> (r: Todo)
        ensures
            r.created == now,
            r.completed == input.completed,
            r.id is None,
            r.modified is None,
            r.order == input.order,
            r.tags == input.tags,
            r.title == input.title,
    {
        Todo {
            created: now,
            completed: input.completed,
            id: None,
            modified: None,
            order: input.order,
            tags: input.tags,
            title: input.title,
        }
    }

    /// A new todo from `input`, created now, not yet stored.
    pub fn from_input(input: CreateTodoInput) -> (r: Todo)
        ensures
            r.completed == input.completed,
            r.id is None,
            r.modified is None,
            r.order == input.order,
            r.tags == input.tags,
            r.title == input.title,
    {
        Todo::from_input_at(input, DateTime::now())
    }

    /// Applies `u` to this todo as the document store does.
    pub fn apply_update(&mut self, u: &UpdateDocument)
        ensures
            final(self)@ == old(self)@.apply(u@),
    {
        let ghost start = self@;
        let mut i: usize = 0;
        while i < u.set.len()
            invariant
                i <= u.set@.len(),
                self@ == start.apply(
                    UpdateView { set: set_view(u.set@).take(i as int), unset: Seq::empty() },
                ),
            decreases u.set@.len() - i,
        {
            match &u.set[i] {
                Entry::Completed(b) => {
                    self.completed = *b;
                },
                Entry::Modified(d) => {
                    self.modified = Some(*d);
                },
                Entry::Order(n) => {
                    self.order = *n;
                },
                Entry::Tags(v) => {
                    self.tags = Some(copy_ids(v));
                },
                Entry::Title(t) => {
                    self.title = t.clone();
                },
                Entry::Name(_) => {},
            }
            proof {
                let sv = set_view(u.set@);
                assert(sv.take(i + 1).drop_last() =~= sv.take(i as int));
                assert(sv.take(i + 1).last() == sv[i as int]);
            }
            i = i + 1;
        }
        assert(set_view(u.set@).take(u.set@.len() as int) =~= set_view(u.set@));
        let mut j: usize = 0;
        while j < u.unset.len()
            invariant
                j <= u.unset@.len(),
                self@ == start.apply(
                    UpdateView { set: set_view(u.set@), unset: u.unset@.take(j as int) },
                ),
            decreases u.unset@.len() - j,
        {
            let ghost before = u.unset@.take(j as int);
            if u.unset[j] == Field::Tags {
                self.tags = None;
            }
            proof {
                let after = u.unset@.take(j + 1);
                assert(after =~= before.push(u.unset@[j as int]));
                if after.contains(Field::Tags) && u.unset@[j as int] != Field::Tags {
                    let k = choose|k: int| 0 <= k < after.len() && after[k] == Field::Tags;
                    assert(before[k] == after[k]);
                }
                if before.contains(Field::Tags) {
                    let k = choose|k: int| 0 <= k < before.len() && before[k] == Field::Tags;
                    assert(after[k] == before[k]);
                }
                if u.unset@[j as int] == Field::Tags {
                    assert(after[j as int] == Field::Tags);
                }
            }
            j = j + 1;
        }
        assert(u.unset@.take(u.unset@.len() as int) =~= u.unset@);
    }
}

} // verus!
