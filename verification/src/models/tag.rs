//! Tags that tasks are marked with.

use super::ident::{new_id, ID_LEN};
use vstd::prelude::*;
use vstd::std_specs::cmp::PartialEqSpecImpl;

verus! {

/// The mathematical value of a [`Tag`].
pub struct TagView {
    pub id: Seq<char>,
    pub name: Seq<char>,
}

/// A label for tasks. Two tags are the same tag when their identifiers agree.
#[derive(Debug)]
pub struct Tag {
    pub id: String,
    pub name: String,
}

impl View for Tag {
    type V = TagView;

    open spec fn view(&self) -> TagView {
        TagView { id: self.id@, name: self.name@ }
    }
}

impl Clone for Tag {
    fn clone(&self) -> (r: Self)
        ensures
            r@ == self@,
    {
        Tag { id: self.id.clone(), name: self.name.clone() }
    }
}

impl PartialEq for Tag {
    fn eq(&self, other: &Tag) -> (r: bool) {
        self.id == other.id && self.name == other.name
    }
}

impl PartialEqSpecImpl for Tag {
    open spec fn obeys_eq_spec() -> bool {
        true
    }

    open spec fn eq_spec(&self, other: &Tag) -> bool {
        self@ == other@
    }
}

impl Tag {
    /// A tag with a fresh identifier.
    pub fn new(name: String) -> (r: Tag)
        ensures
            r.name == name,
            r.id@.len() == ID_LEN,
    {
        Tag { id: new_id(), name }
    }
}

} // verus!
