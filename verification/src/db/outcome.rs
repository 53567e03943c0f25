//! What a repository makes of the answers of its storage engine.

use super::codec::{
    decode_tag, decode_tags, decode_task, decode_tasks, decode_user, decode_users, malformed_tag,
    malformed_task, malformed_user, row_view, rows_view, tag_of_row, tags_of_rows, task_of_row,
    task_views, tasks_of_rows, user_of_row, user_views, users_of_rows,
};
use super::error::{
    tag_not_found, task_not_found, user_not_found, RepositoryError, RepositoryErrorView,
};
use crate::models::tag::Tag;
use crate::models::task::{tag_views, Task, TaskView};
use crate::models::user::User;
use vstd::prelude::*;

verus! {

/// The rows that a query gave, or the engine's message.
pub type Answer = Result<Vec<Vec<Option<String>>>, String>;

/// How many rows a statement changed, or the engine's message.
pub type Change = Result<usize, String>;

/// The outcome of a statement that adds rows: it fails only where the engine
/// did.
pub fn written(change: Change) -> (r: Result<(), RepositoryError>)
    ensures
        match change {
            Ok(_) => r is Ok,
            Err(cause) => r matches Err(e) && e@ == RepositoryErrorView::Database(cause@),
        },
{
    match change {
        Ok(_) => Ok(()),
        Err(cause) => Err(RepositoryError::Database(cause)),
    }
}

/// The outcome of a statement that rewrites or removes what must exist: no
/// row changed means that it was `missing`.
pub fn changed(change: Change, missing: RepositoryError) -> (r: Result<(), RepositoryError>)
    ensures
        match change {
            Ok(n) => if n == 0 {
                r matches Err(e) && e@ == missing@
            } else {
                r is Ok
            },
            Err(cause) => r matches Err(e) && e@ == RepositoryErrorView::Database(cause@),
        },
{
    match change {
        Ok(n) => if n == 0 {
            Err(missing)
        } else {
            Ok(())
        },
        Err(cause) => Err(RepositoryError::Database(cause)),
    }
}

/// The outcome of a check that a row exists: no row means that it was
/// `missing`.
pub fn present(answer: Answer, missing: RepositoryError) -> (r: Result<(), RepositoryError>)
    ensures
        match answer {
            Ok(rows) => if rows@.len() == 0 {
                r matches Err(e) && e@ == missing@
            } else {
                r is Ok
            },
            Err(cause) => r matches Err(e) && e@ == RepositoryErrorView::Database(cause@),
        },
{
    match answer {
        Ok(rows) => if rows.len() == 0 {
            Err(missing)
        } else {
            Ok(())
        },
        Err(cause) => Err(RepositoryError::Database(cause)),
    }
}

/// The users that a query for all users gave.
pub fn listed_users(answer: Answer) -> (r: Result<Vec<User>, RepositoryError>)
    ensures
        match answer {
            Ok(rows) => match users_of_rows(rows_view(rows@)) {
                Some(v) => r matches Ok(users) && user_views(users@) == v,
                None => r matches Err(e) && e@ == malformed_user(),
            },
            Err(cause) => r matches Err(e) && e@ == RepositoryErrorView::Database(cause@),
        },
{
    match answer {
        Ok(rows) => decode_users(&rows),
        Err(cause) => Err(RepositoryError::Database(cause)),
    }
}

/// The tags that a query for tags gave.
pub fn listed_tags(answer: Answer) -> (r: Result<Vec<Tag>, RepositoryError>)
    ensures
        match answer {
            Ok(rows) => match tags_of_rows(rows_view(rows@)) {
                Some(v) => r matches Ok(tags) && tag_views(tags@) == v,
                None => r matches Err(e) && e@ == malformed_tag(),
            },
            Err(cause) => r matches Err(e) && e@ == RepositoryErrorView::Database(cause@),
        },
{
    match answer {
        Ok(rows) => decode_tags(&rows),
        Err(cause) => Err(RepositoryError::Database(cause)),
    }
}

/// The tasks, without tags, that a query for all tasks gave.
pub fn listed_tasks(answer: Answer) -> (r: Result<Vec<Task>, RepositoryError>)
    ensures
        match answer {
            Ok(rows) => match tasks_of_rows(rows_view(rows@)) {
                Some(v) => r matches Ok(tasks) && task_views(tasks@) == v,
                None => r matches Err(e) && e@ == malformed_task(),
            },
            Err(cause) => r matches Err(e) && e@ == RepositoryErrorView::Database(cause@),
        },
{
    match answer {
        Ok(rows) => decode_tasks(&rows),
        Err(cause) => Err(RepositoryError::Database(cause)),
    }
}

/// The user that a query by identifier gave: the first row, and not found
/// where there is none.
pub fn found_user(answer: Answer, id: &str) -> (r: Result<User, RepositoryError>)
    ensures
        match answer {
            Ok(rows) => if rows@.len() == 0 {
                r matches Err(e) && e@ == RepositoryErrorView::NotFound(user_not_found(id@))
            } else {
                match user_of_row(row_view(rows@[0]@)) {
                    Some(v) => r matches Ok(u) && u@ == v,
                    None => r matches Err(e) && e@ == malformed_user(),
                }
            },
            Err(cause) => r matches Err(e) && e@ == RepositoryErrorView::Database(cause@),
        },
{
    match answer {
        Ok(rows) => if rows.len() == 0 {
            Err(RepositoryError::user_not_found(id))
        } else {
            decode_user(&rows[0])
        },
        Err(cause) => Err(RepositoryError::Database(cause)),
    }
}

/// The tag that a query by identifier gave: the first row, and not found
/// where there is none.
pub fn found_tag(answer: Answer, id: &str) -> (r: Result<Tag, RepositoryError>)
    ensures
        match answer {
            Ok(rows) => if rows@.len() == 0 {
                r matches Err(e) && e@ == RepositoryErrorView::NotFound(tag_not_found(id@))
            } else {
                match tag_of_row(row_view(rows@[0]@)) {
                    Some(v) => r matches Ok(t) && t@ == v,
                    None => r matches Err(e) && e@ == malformed_tag(),
                }
            },
            Err(cause) => r matches Err(e) && e@ == RepositoryErrorView::Database(cause@),
        },
{
    match answer {
        Ok(rows) => if rows.len() == 0 {
            Err(RepositoryError::tag_not_found(id))
        } else {
            decode_tag(&rows[0])
        },
        Err(cause) => Err(RepositoryError::Database(cause)),
    }
}

/// The task, without tags, that a query by identifier gave: the first row,
/// and not found where there is none.
pub fn found_task(answer: Answer, id: &str) -> (r: Result<Task, RepositoryError>)
    ensures
        match answer {
            Ok(rows) => if rows@.len() == 0 {
                r matches Err(e) && e@ == RepositoryErrorView::NotFound(task_not_found(id@))
            } else {
                match task_of_row(row_view(rows@[0]@)) {
                    Some(v) => r matches Ok(t) && t@ == v,
                    None => r matches Err(e) && e@ == malformed_task(),
                }
            },
            Err(cause) => r matches Err(e) && e@ == RepositoryErrorView::Database(cause@),
        },
{
    match answer {
        Ok(rows) => if rows.len() == 0 {
            Err(RepositoryError::task_not_found(id))
        } else {
            decode_task(&rows[0])
        },
        Err(cause) => Err(RepositoryError::Database(cause)),
    }
}

/// The task with the tags that the join for it gave: every other field stays
/// as it is.
pub fn tagged(task: Task, answer: Answer) -> (r: Result<Task, RepositoryError>)
    ensures
        match answer {
            Ok(rows) => match tags_of_rows(rows_view(rows@)) {
                Some(v) => r matches Ok(t) && t@ == (TaskView { tags: v, ..task@ }),
                None => r matches Err(e) && e@ == malformed_tag(),
            },
            Err(cause) => r matches Err(e) && e@ == RepositoryErrorView::Database(cause@),
        },
{
    let tags = listed_tags(answer)?;
    let mut task = task;
    task.tags = tags;
    Ok(task)
}

} // verus!
