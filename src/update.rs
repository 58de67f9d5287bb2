//! The update instruction that the document store applies to one record: a
//! "set" sub-document of field values to write and an "unset" sub-document of
//! fields to remove, sent together as one atomic operation.

use vstd::prelude::*;

use crate::values::{DateTime, ObjectId};

verus! {

/// A stored field that an update instruction can name.
#[derive(Clone, Copy, Debug, PartialEq, Eq, Structural)]
pub enum Field {
    Completed,
    Modified,
    Name,
    Order,
    Tags,
    Title,
}

impl Field {
    /// The key under which the field is stored.
    pub open spec fn spec_key(self) -> Seq<char> {
        match self {
            Field::Completed => "completed"@,
            Field::Modified => "modified"@,
            Field::Name => "name"@,
            Field::Order => "order"@,
            Field::Tags => "tags"@,
            Field::Title => "title"@,
        }
    }

    pub fn key(&self) -> (r: &'static str)
        ensures
            r@ == self.spec_key(),
    {
        match self {
            Field::Completed => "completed",
            Field::Modified => "modified",
            Field::Name => "name",
            Field::Order => "order",
            Field::Tags => "tags",
            Field::Title => "title",
        }
    }
}

/// One entry of a "set" sub-document: a field with the value to write.
#[derive(Clone, Debug, PartialEq, Eq)]
pub enum Entry {
    Completed(bool),
    Modified(DateTime),
    Name(String),
    Order(u64),
    Tags(Vec<ObjectId>),
    Title(String),
}

/// The mathematical content of an [`Entry`].
pub enum EntryView {
    Completed(bool),
    Modified(DateTime),
    Name(Seq<char>),
    Order(u64),
    Tags(Seq<ObjectId>),
    Title(Seq<char>),
}

impl EntryView {
    pub open spec fn field(self) -> Field {
        match self {
            EntryView::Completed(_) => Field::Completed,
            EntryView::Modified(_) => Field::Modified,
            EntryView::Name(_) => Field::Name,
            EntryView::Order(_) => Field::Order,
            EntryView::Tags(_) => Field::Tags,
            EntryView::Title(_) => Field::Title,
        }
    }
}

impl View for Entry {
    type V = EntryView;

    open spec fn view(&self) -> EntryView {
        match self {
            Entry::Completed(b) => EntryView::Completed(*b),
            Entry::Modified(d) => EntryView::Modified(*d),
            Entry::Name(s) => EntryView::Name(s@),
            Entry::Order(n) => EntryView::Order(*n),
            Entry::Tags(v) => EntryView::Tags(v@),
            Entry::Title(s) => EntryView::Title(s@),
        }
    }
}

impl Entry {
    /// The field that the entry writes.
    pub fn field(&self) -> (r: Field)
        ensures
            r == self@.field(),
    {
        match self {
            Entry::Completed(_) => Field::Completed,
            Entry::Modified(_) => Field::Modified,
            Entry::Name(_) => Field::Name,
            Entry::Order(_) => Field::Order,
            Entry::Tags(_) => Field::Tags,
            Entry::Title(_) => Field::Title,
        }
    }
}

/// One update operation: the entries of the "set" sub-document, in order,
/// and the fields of the "unset" sub-document.
#[derive(Clone, Debug, PartialEq, Eq)]
pub struct UpdateDocument {
    pub set: Vec<Entry>,
    pub unset: Vec<Field>,
}

/// The mathematical content of an [`UpdateDocument`].
pub struct UpdateView {
    pub set: Seq<EntryView>,
    pub unset: Seq<Field>,
}

/// The mathematical content of the entries of a "set" sub-document.
pub open spec fn set_view(set: Seq<Entry>) -> Seq<EntryView> {
    set.map_values(|e: Entry| e@)
}

impl View for UpdateDocument {
    type V = UpdateView;

    open spec fn view(&self) -> UpdateView {
        UpdateView { set: set_view(self.set@), unset: self.unset@ }
    }
}

/// The last entry for `f` in `set`, if there is one.
pub open spec fn last_set(set: Seq<EntryView>, f: Field) -> Option<EntryView>
    decreases set.len(),
{
    if set.len() == 0 {
        None
    } else if set.last().field() == f {
        Some(set.last())
    } else {
        last_set(set.drop_last(), f)
    }
}

/// `set` holds an entry for `f`.
pub open spec fn sets_field(set: Seq<EntryView>, f: Field) -> bool {
    exists|i: int| 0 <= i < set.len() && (#[trigger] set[i]).field() == f
}

/// The given entry, or none.
pub open spec fn optional_entry(e: Option<EntryView>) -> Seq<EntryView> {
    match e {
        Some(x) => seq![x],
        None => Seq::empty(),
    }
}

/// The first entry of every synthesized "set" sub-document.
pub open spec fn stamp(now: DateTime) -> Seq<EntryView> {
    seq![EntryView::Modified(now)]
}

/// A "set" sub-document holds only the modification stamp.
pub open spec fn only_stamp(set: Seq<EntryView>, now: DateTime) -> bool {
    set =~= stamp(now)
}

/// Entries appended after `a` take precedence over those of `a`.
pub proof fn lemma_last_set_append(a: Seq<EntryView>, b: Seq<EntryView>, f: Field)
    ensures
        last_set(a + b, f) == (match last_set(b, f) {
            Some(v) => Some(v),
            None => last_set(a, f),
        }),
    decreases b.len(),
{
    if b.len() == 0 {
        assert(a + b =~= a);
    } else {
        assert((a + b).drop_last() =~= a + b.drop_last());
        assert((a + b).last() == b.last());
        lemma_last_set_append(a, b.drop_last(), f);
    }
}

/// `set` holds an entry for `f` exactly when `last_set` finds one.
pub proof fn lemma_sets_field_iff(set: Seq<EntryView>, f: Field)
    ensures
        sets_field(set, f) <==> last_set(set, f) is Some,
    decreases set.len(),
{
    if set.len() > 0 {
        let d = set.drop_last();
        lemma_sets_field_iff(d, f);
        assert(set[set.len() - 1] == set.last());
        if sets_field(set, f) && set.last().field() != f {
            let i = choose|i: int| 0 <= i < set.len() && (#[trigger] set[i]).field() == f;
            assert(d[i] == set[i]);
        }
        if sets_field(d, f) {
            let i = choose|i: int| 0 <= i < d.len() && (#[trigger] d[i]).field() == f;
            assert(set[i] == d[i]);
        }
    }
}

/// No field has two entries in `set`.
pub open spec fn distinct_fields(set: Seq<EntryView>) -> bool {
    forall|i: int, j: int| 0 <= i < j < set.len() ==> (#[trigger] set[i]).field() != (#[trigger] set[j]).field()
}

/// What `last_set` finds in a "set" sub-document of at most one entry.
pub proof fn lemma_last_set_optional(f: Field, v: Option<EntryView>, g: Field)
    requires
        v is Some ==> v->Some_0.field() == f,
    ensures
        last_set(optional_entry(v), g) == (if f == g {
            v
        } else {
            None
        }),
{
    reveal_with_fuel(last_set, 2);
    if let Some(x) = v {
        assert(seq![x].drop_last() =~= Seq::<EntryView>::empty());
    }
}

/// Appending an entry for a field that `a` does not set keeps the fields
/// distinct, and the new entry is the one `last_set` finds for that field.
pub proof fn lemma_append_entry(a: Seq<EntryView>, f: Field, v: Option<EntryView>)
    requires
        v is Some ==> v->Some_0.field() == f,
        distinct_fields(a),
        last_set(a, f) is None,
    ensures
        distinct_fields(a + optional_entry(v)),
        forall|g: Field|
            last_set(a + optional_entry(v), g) == if g == f {
                v
            } else {
                last_set(a, g)
            },
{
    lemma_sets_field_iff(a, f);
    let b = optional_entry(v);
    let s = a + b;
    assert forall|i: int, j: int| 0 <= i < j < s.len() implies (#[trigger] s[i]).field() != (
    #[trigger] s[j]).field() by {
        assert(s[i] == a[i]);
        if j < a.len() {
            assert(s[j] == a[j]);
        } else {
            assert(s[j] == b[j - a.len()]);
        }
    }
    assert forall|g: Field|
        last_set(a + optional_entry(v), g) == if g == f {
            v
        } else {
            last_set(a, g)
        } by {
        lemma_last_set_append(a, b, g);
        lemma_last_set_optional(f, v, g);
    }
}

/// Copies a list of identifiers.
pub(crate) fn copy_ids(v: &Vec<ObjectId>) -> (r: Vec<ObjectId>)
    ensures
        r@ == v@,
{
    let mut r: Vec<ObjectId> = Vec::new();
    let mut i: usize = 0;
    while i < v.len()
        invariant
            i <= v@.len(),
            r@ == v@.take(i as int),
        decreases v@.len() - i,
    {
        r.push(v[i]);
        i = i + 1;
        assert(r@ =~= v@.take(i as int));
    }
    assert(r@ =~= v@);
    r
}

} // verus!
