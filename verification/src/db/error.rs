//! The three kinds of failure that a repository reports.

use crate::text::{join2, join3, join5};
use vstd::prelude::*;

verus! {

/// Why a repository operation failed.
#[derive(Debug)]
pub enum RepositoryError {
    /// The storage engine refused or failed: a broken constraint, an I/O
    /// fault, a stored value that cannot be read back. Holds the cause.
    Database(String),
    /// The entity that the operation names does not exist.
    NotFound(String),
    /// A failure that is not the store's, such as no free connection.
    Internal(String),
}

/// The mathematical value of a [`RepositoryError`].
pub enum RepositoryErrorView {
    Database(Seq<char>),
    NotFound(Seq<char>),
    Internal(Seq<char>),
}

impl View for RepositoryError {
    type V = RepositoryErrorView;

    open spec fn view(&self) -> RepositoryErrorView {
        match self {
            RepositoryError::Database(m) => RepositoryErrorView::Database(m@),
            RepositoryError::NotFound(m) => RepositoryErrorView::NotFound(m@),
            RepositoryError::Internal(m) => RepositoryErrorView::Internal(m@),
        }
    }
}

/// The message for a user that is not in the store.
pub open spec fn user_not_found(id: Seq<char>) -> Seq<char> {
    "User with id "@ + id + " not found"@
}

/// The message for a task that is not in the store.
pub open spec fn task_not_found(id: Seq<char>) -> Seq<char> {
    "Task with id "@ + id + " not found"@
}

/// The message for a tag that is not in the store.
pub open spec fn tag_not_found(id: Seq<char>) -> Seq<char> {
    "Tag with id "@ + id + " not found"@
}

/// The message for a task that does not carry a tag.
pub open spec fn link_not_found(task_id: Seq<char>, tag_id: Seq<char>) -> Seq<char> {
    "Relationship between task "@ + task_id + " and tag "@ + tag_id + " not found"@
}

impl RepositoryErrorView {
    /// The error as one line of text.
    pub open spec fn message(self) -> Seq<char> {
        match self {
            RepositoryErrorView::Database(m) => "database error: "@ + m,
            RepositoryErrorView::NotFound(m) => "entity not found: "@ + m,
            RepositoryErrorView::Internal(m) => "internal error: "@ + m,
        }
    }
}

impl Clone for RepositoryError {
    fn clone(&self) -> (r: Self)
        ensures
            r@ == self@,
    {
        match self {
            RepositoryError::Database(m) => RepositoryError::Database(m.clone()),
            RepositoryError::NotFound(m) => RepositoryError::NotFound(m.clone()),
            RepositoryError::Internal(m) => RepositoryError::Internal(m.clone()),
        }
    }
}

impl RepositoryError {
    /// A user that is not in the store.
    pub fn user_not_found(id: &str) -> (r: RepositoryError)
        ensures
            r@ == RepositoryErrorView::NotFound(user_not_found(id@)),
    {
        RepositoryError::NotFound(join3("User with id ", id, " not found"))
    }

    /// A task that is not in the store.
    pub fn task_not_found(id: &str) -> (r: RepositoryError)
        ensures
            r@ == RepositoryErrorView::NotFound(task_not_found(id@)),
    {
        RepositoryError::NotFound(join3("Task with id ", id, " not found"))
    }

    /// A tag that is not in the store.
    pub fn tag_not_found(id: &str) -> (r: RepositoryError)
        ensures
            r@ == RepositoryErrorView::NotFound(tag_not_found(id@)),
    {
        RepositoryError::NotFound(join3("Tag with id ", id, " not found"))
    }

    /// A task that does not carry a tag.
    pub fn link_not_found(task_id: &str, tag_id: &str) -> (r: RepositoryError)
        ensures
            r@ == RepositoryErrorView::NotFound(link_not_found(task_id@, tag_id@)),
    {
        RepositoryError::NotFound(
            join5("Relationship between task ", task_id, " and tag ", tag_id, " not found"),
        )
    }

    /// The error as one line of text.
    pub fn message(&self) -> (r: String)
        ensures
            r@ == self@.message(),
    {
        match self {
            RepositoryError::Database(m) => join2("database error: ", m.as_str()),
            RepositoryError::NotFound(m) => join2("entity not found: ", m.as_str()),
            RepositoryError::Internal(m) => join2("internal error: ", m.as_str()),
        }
    }
}

} // verus!
