//! How failures are reported to the callers of the service.

use crate::db::codec::{task_views, user_views};
use crate::db::error::{RepositoryError, RepositoryErrorView};
use crate::models::tag::{Tag, TagView};
use crate::models::task::{tag_views, Task, TaskView};
use crate::models::user::{User, UserView};
use crate::text::join2;
use vstd::prelude::*;

verus! {

/// Why a request failed.
#[derive(Debug)]
pub enum ApiError {
    /// What the request names does not exist.
    NotFound(String),
    /// The request itself is not acceptable.
    BadRequest(String),
    /// Anything else.
    Internal(String),
}

/// The mathematical value of an [`ApiError`].
pub enum ApiErrorView {
    NotFound(Seq<char>),
    BadRequest(Seq<char>),
    Internal(Seq<char>),
}

impl View for ApiError {
    type V = ApiErrorView;

    open spec fn view(&self) -> ApiErrorView {
        match self {
            ApiError::NotFound(m) => ApiErrorView::NotFound(m@),
            ApiError::BadRequest(m) => ApiErrorView::BadRequest(m@),
            ApiError::Internal(m) => ApiErrorView::Internal(m@),
        }
    }
}

impl ApiErrorView {
    /// The error as one line of text.
    pub open spec fn message(self) -> Seq<char> {
        match self {
            ApiErrorView::NotFound(m) => "Not found: "@ + m,
            ApiErrorView::BadRequest(m) => "Bad request: "@ + m,
            ApiErrorView::Internal(m) => "Internal error: "@ + m,
        }
    }

    /// The HTTP status that stands for the error.
    pub open spec fn status_code(self) -> u16 {
        match self {
            ApiErrorView::NotFound(_) => 404,
            ApiErrorView::BadRequest(_) => 400,
            ApiErrorView::Internal(_) => 500,
        }
    }

    /// What a failure of the repository becomes: not found stays not found,
    /// everything else is internal.
    pub open spec fn of_repository(e: RepositoryErrorView) -> ApiErrorView {
        match e {
            RepositoryErrorView::NotFound(m) => ApiErrorView::NotFound(m),
            RepositoryErrorView::Database(m) => ApiErrorView::Internal("Database error: "@ + m),
            RepositoryErrorView::Internal(m) => ApiErrorView::Internal(m),
        }
    }
}

impl ApiError {
    /// The error that stands for a failure of the repository.
    pub fn from(err: RepositoryError) -> (r: ApiError)
        ensures
            r@ == ApiErrorView::of_repository(err@),
    {
        match err {
            RepositoryError::NotFound(m) => ApiError::NotFound(m),
            RepositoryError::Database(m) => ApiError::Internal(
                join2("Database error: ", m.as_str()),
            ),
            RepositoryError::Internal(m) => ApiError::Internal(m),
        }
    }

    /// The error as one line of text.
    pub fn message(&self) -> (r: String)
        ensures
            r@ == self@.message(),
    {
        match self {
            ApiError::NotFound(m) => join2("Not found: ", m.as_str()),
            ApiError::BadRequest(m) => join2("Bad request: ", m.as_str()),
            ApiError::Internal(m) => join2("Internal error: ", m.as_str()),
        }
    }

    /// The HTTP status that stands for the error.
    pub fn status_code(&self) -> (r: u16)
        ensures
            r == self@.status_code(),
    {
        match self {
            ApiError::NotFound(_) => 404,
            ApiError::BadRequest(_) => 400,
            ApiError::Internal(_) => 500,
        }
    }
}

/// What an answer of the repository becomes for the caller: the same value,
/// or its failure as [`ApiErrorView::of_repository`] reports it.
pub open spec fn translated<T>(answer: Result<T, RepositoryErrorView>) -> Result<T, ApiErrorView> {
    match answer {
        Ok(v) => Ok(v),
        Err(e) => Err(ApiErrorView::of_repository(e)),
    }
}

/// A reply that holds nothing, as a mathematical value.
pub open spec fn done_reply(r: Result<(), ApiError>) -> Result<(), ApiErrorView> {
    match r {
        Ok(()) => Ok(()),
        Err(e) => Err(e@),
    }
}

/// A reply that holds one user, as a mathematical value.
pub open spec fn user_reply(r: Result<User, ApiError>) -> Result<UserView, ApiErrorView> {
    match r {
        Ok(u) => Ok(u@),
        Err(e) => Err(e@),
    }
}

/// A reply that holds users, as a mathematical value.
pub open spec fn users_reply(r: Result<Vec<User>, ApiError>) -> Result<
    Seq<UserView>,
    ApiErrorView,
> {
    match r {
        Ok(users) => Ok(user_views(users@)),
        Err(e) => Err(e@),
    }
}

/// A reply that holds one task, as a mathematical value.
pub open spec fn task_reply(r: Result<Task, ApiError>) -> Result<TaskView, ApiErrorView> {
    match r {
        Ok(t) => Ok(t@),
        Err(e) => Err(e@),
    }
}

/// A reply that holds tasks, as a mathematical value.
pub open spec fn tasks_reply(r: Result<Vec<Task>, ApiError>) -> Result<
    Seq<TaskView>,
    ApiErrorView,
> {
    match r {
        Ok(tasks) => Ok(task_views(tasks@)),
        Err(e) => Err(e@),
    }
}

/// A reply that holds one tag, as a mathematical value.
pub open spec fn tag_reply(r: Result<Tag, ApiError>) -> Result<TagView, ApiErrorView> {
    match r {
        Ok(t) => Ok(t@),
        Err(e) => Err(e@),
    }
}

/// A reply that holds tags, as a mathematical value.
pub open spec fn tags_reply(r: Result<Vec<Tag>, ApiError>) -> Result<Seq<TagView>, ApiErrorView> {
    match r {
        Ok(tags) => Ok(tag_views(tags@)),
        Err(e) => Err(e@),
    }
}

/// Whether a failure of the repository is handed on and nothing is stored.
pub open spec fn refused<R, T>(
    before: &R,
    after: &R,
    reply: Result<T, ApiErrorView>,
    f: RepositoryErrorView,
) -> bool {
    after == before && reply == Err::<T, ApiErrorView>(ApiErrorView::of_repository(f))
}

/// Whether a request is turned down with a complaint and nothing is stored.
pub open spec fn turned_down<R, T>(
    before: &R,
    after: &R,
    reply: Result<T, ApiErrorView>,
    complaint: ApiErrorView,
) -> bool {
    after == before && reply == Err::<T, ApiErrorView>(complaint)
}

} // verus!
