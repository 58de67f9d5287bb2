//! Tag records, the inputs that create and change them, and how an update
//! instruction changes a stored tag.

use vstd::prelude::*;

use crate::update::{
    distinct_fields, last_set, lemma_append_entry, only_stamp, optional_entry, set_view, stamp,
    Entry, EntryView, Field, UpdateDocument, UpdateView,
};
use crate::values::{DateTime, ObjectId};

verus! {

/// A tag as the document store holds it. Names are unique among stored tags:
/// the store holds a unique index on `name`.
#[derive(Clone, Debug, PartialEq, Eq)]
pub struct Tag {
    pub created: DateTime,
    pub id: Option<ObjectId>,
    pub modified: Option<DateTime>,
    pub name: String,
}

/// The mathematical content of a [`Tag`].
pub struct TagView {
    pub created: DateTime,
    pub id: Option<ObjectId>,
    pub modified: Option<DateTime>,
    pub name: Seq<char>,
}

impl View for Tag {
    type V = TagView;

    open spec fn view(&self) -> TagView {
        TagView { created: self.created, id: self.id, modified: self.modified, name: self.name@ }
    }
}

impl TagView {
    /// The tag after the store has applied `u`: each field takes the value of
    /// the last "set" entry for it, and every other field keeps its value.
    /// The identifier and the creation time are never changed, and a tag has
    /// no field that "unset" may remove.
    pub open spec fn apply(self, u: UpdateView) -> TagView {
        TagView {
            created: self.created,
            id: self.id,
            modified: match last_set(u.set, Field::Modified) {
                Some(EntryView::Modified(d)) => Some(d),
                _ => self.modified,
            },
            name: match last_set(u.set, Field::Name) {
                Some(EntryView::Name(n)) => n,
                _ => self.name,
            },
        }
    }
}

/// The input that creates a tag.
#[derive(Clone, Debug, PartialEq, Eq)]
pub struct CreateTagInput {
    pub name: String,
}

/// The input that changes a tag: the identifier of the tag and the fields to
/// change.
#[derive(Clone, Debug, PartialEq, Eq)]
pub struct UpdateTagInput {
    pub id: ObjectId,
    pub name: Option<String>,
}

impl UpdateTagInput {
    /// The instruction that applies this input at time `now`: "set" holds the
    /// stamp `modified = now`, then the name if one is given; "unset" is
    /// empty.
    pub open spec fn spec_update(self, now: DateTime) -> UpdateView {
        UpdateView { set: stamp(now) + optional_entry(self.name_value()), unset: Seq::empty() }
    }

    pub open spec fn name_value(self) -> Option<EntryView> {
        match self.name {
            Some(n) => Some(EntryView::Name(n@)),
            None => None,
        }
    }

    /// The update instruction for this input, stamped with the current time.
    pub fn update_document(&self) -> (r: UpdateDocument)
        ensures
            exists|now: DateTime| r@ == self.spec_update(now),
    {
        self.update_document_at(DateTime::now())
    }

    /// The update instruction for this input, stamped with `now`.
    pub fn update_document_at(&self, now: DateTime) -> (r: UpdateDocument)
        ensures
            r@ == self.spec_update(now),
            distinct_fields(r@.set),
            last_set(r@.set, Field::Modified) == Some(EntryView::Modified(now)),
            last_set(r@.set, Field::Name) == self.name_value(),
            self.name is None ==> only_stamp(r@.set, now),
            r@.unset.len() == 0,
    {
        let mut set: Vec<Entry> = Vec::new();
        set.push(Entry::Modified(now));
        if let Some(n) = &self.name {
            set.push(Entry::Name(n.clone()));
        }
        let unset: Vec<Field> = Vec::new();
        let ghost spec = self.spec_update(now);
        assert(set_view(set@) =~= spec.set);
        assert(unset@ =~= spec.unset);
        proof {
            lemma_update_tag_fields(*self, now);
        }
        UpdateDocument { set, unset }
    }
}

/// The fields of the synthesized instruction, one at a time.
proof fn lemma_update_tag_fields(input: UpdateTagInput, now: DateTime)
    ensures
        ({
            let u = input.spec_update(now);
            &&& distinct_fields(u.set)
            &&& last_set(u.set, Field::Modified) == Some(EntryView::Modified(now))
            &&& last_set(u.set, Field::Name) == input.name_value()
            &&& (input.name is None ==> only_stamp(u.set, now))
        }),
{
    let e: Seq<EntryView> = Seq::empty();
    lemma_append_entry(e, Field::Modified, Some(EntryView::Modified(now)));
    let s0 = e + optional_entry(Some(EntryView::Modified(now)));
    lemma_append_entry(s0, Field::Name, input.name_value());
    assert(s0 =~= stamp(now));
    assert(input.spec_update(now).set =~= s0 + optional_entry(input.name_value()));
}

/// Applying the same update instruction twice leaves a tag as applying it
/// once does.
pub proof fn lemma_tag_apply_idempotent(t: TagView, u: UpdateView)
    ensures
        t.apply(u).apply(u) == t.apply(u),
{
}

/// What the instruction synthesized from `input` at `now` does to a stored
/// tag: `modified` becomes `now`, the name takes the given name if one is
/// given, and every other field keeps its value.
pub proof fn lemma_tag_update_effect(t: TagView, input: UpdateTagInput, now: DateTime)
    ensures
        ({
            let r = t.apply(input.spec_update(now));
            &&& r.created == t.created
            &&& r.id == t.id
            &&& r.modified == Some(now)
            &&& r.name == match input.name {
                Some(n) => n@,
                None => t.name,
            }
        }),
{
    lemma_update_tag_fields(input, now);
}

impl Tag {
    /// A new tag from `input`, created at `now`, not yet stored: it has no
    /// identifier and has never been modified.
    pub fn from_input_at(input: CreateTagInput, now: DateTime) -> (r: Tag)
        ensures
            r.created == now,
            r.id is None,
            r.modified is None,
            r.name == input.name,
    {
        Tag { created: now, id: None, modified: None, name: input.name }
    }

    /// A new tag from `input`, created now, not yet stored.
    pub fn from_input(input: CreateTagInput) -> (r: Tag)
        ensures
            r.id is None,
            r.modified is None,
            r.name == input.name,
    {
        Tag::from_input_at(input, DateTime::now())
    }

    /// Applies `u` to this tag as the document store does.
    pub fn apply_update(&mut self, u: &UpdateDocument)
        ensures
            final(self)@ == old(self)@.apply(u@),
    {
        let ghost start = self@;
        let mut i: usize = 0;
        while i < u.set.len()
            invariant
                i <= u.set@.len(),
                self@ == start.apply(
                    UpdateView { set: set_view(u.set@).take(i as int), unset: Seq::empty() },
                ),
            decreases u.set@.len() - i,
        {
            match &u.set[i] {
                Entry::Modified(d) => {
                    self.modified = Some(*d);
                },
                Entry::Name(n) => {
                    self.name = n.clone();
                },
                _ => {},
            }
            proof {
                let sv = set_view(u.set@);
                assert(sv.take(i + 1).drop_last() =~= sv.take(i as int));
                assert(sv.take(i + 1).last() == sv[i as int]);
            }
            i = i + 1;
        }
        assert(set_view(u.set@).take(u.set@.len() as int) =~= set_view(u.set@));
    }
}

} // verus!
