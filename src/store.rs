//! The collections of the document store and the data it is seeded with.

use vstd::prelude::*;

use crate::tag::Tag;

verus! {

/// The collection of todos.
pub const TODOS: &'static str = "todos";

/// The collection of tags, with a unique index on `name`.
pub const TAGS: &'static str = "tags";

/// The names of the example tags that the store is seeded with at start-up,
/// each inserted only where no tag of that name is stored yet.
pub fn seed_tag_names() -> (r: Vec<String>)
    ensures
        r@.len() == 5,
        r@[0]@ == "private"@,
        r@[1]@ == "social:instagram"@,
        r@[2]@ == "social:tiktok"@,
        r@[3]@ == "social:youtube"@,
        r@[4]@ == "work"@,
{
    let mut r: Vec<String> = Vec::new();
    r.push(String::from_str("private"));
    r.push(String::from_str("social:instagram"));
    r.push(String::from_str("social:tiktok"));
    r.push(String::from_str("social:youtube"));
    r.push(String::from_str("work"));
    r
}

/// The tags of a todo as the API reports them: the stored tags that its
/// identifiers found, or nothing where they found none.
pub fn found_tags(found: Vec<Tag>) -> (r: Option<Vec<Tag>>)
    ensures
        found@.len() == 0 ==> r is None,
        found@.len() > 0 ==> r == Some(found),
{
    if found.len() == 0 {
        None
    } else {
        Some(found)
    }
}

} // verus!
