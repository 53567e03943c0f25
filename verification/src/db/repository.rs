//! The capability that the rest of the system depends on: durable storage of
//! users, tasks and tags, whatever the engine behind it.

use super::codec::{task_views, user_views};
use super::error::{
    link_not_found, tag_not_found, task_not_found, user_not_found, RepositoryError,
    RepositoryErrorView,
};
use crate::models::tag::{Tag, TagView};
use crate::models::task::{tag_views, Task, TaskView};
use crate::models::user::{User, UserView};
use vstd::prelude::*;

verus! {

/// Whether `e` reports that something a task write depends on is missing: the
/// task itself, its customer, its executor or one of its tags.
pub open spec fn task_reference_missing(task: TaskView, e: RepositoryErrorView) -> bool {
    ||| e == RepositoryErrorView::NotFound(task_not_found(task.id))
    ||| e == RepositoryErrorView::NotFound(user_not_found(task.customer_id))
    ||| e == RepositoryErrorView::NotFound(user_not_found(task.executor_id))
    ||| exists|i: int|
        0 <= i < task.tags.len() && e == RepositoryErrorView::NotFound(
            tag_not_found(#[trigger] task.tags[i].id),
        )
}

/// The outcome of a write, as a mathematical value.
pub open spec fn outcome_view(r: Result<(), RepositoryError>) -> Result<(), RepositoryErrorView> {
    match r {
        Ok(()) => Ok(()),
        Err(e) => Err(e@),
    }
}

/// An answer that holds one user, as a mathematical value.
pub open spec fn user_answer(r: Result<User, RepositoryError>) -> Result<
    UserView,
    RepositoryErrorView,
> {
    match r {
        Ok(u) => Ok(u@),
        Err(e) => Err(e@),
    }
}

/// An answer that holds users, as a mathematical value.
pub open spec fn users_answer(r: Result<Vec<User>, RepositoryError>) -> Result<
    Seq<UserView>,
    RepositoryErrorView,
> {
    match r {
        Ok(users) => Ok(user_views(users@)),
        Err(e) => Err(e@),
    }
}

/// An answer that holds one task, as a mathematical value.
pub open spec fn task_answer(r: Result<Task, RepositoryError>) -> Result<
    TaskView,
    RepositoryErrorView,
> {
    match r {
        Ok(t) => Ok(t@),
        Err(e) => Err(e@),
    }
}

/// An answer that holds tasks, as a mathematical value.
pub open spec fn tasks_answer(r: Result<Vec<Task>, RepositoryError>) -> Result<
    Seq<TaskView>,
    RepositoryErrorView,
> {
    match r {
        Ok(tasks) => Ok(task_views(tasks@)),
        Err(e) => Err(e@),
    }
}

/// An answer that holds one tag, as a mathematical value.
pub open spec fn tag_answer(r: Result<Tag, RepositoryError>) -> Result<
    TagView,
    RepositoryErrorView,
> {
    match r {
        Ok(t) => Ok(t@),
        Err(e) => Err(e@),
    }
}

/// An answer that holds tags, as a mathematical value.
pub open spec fn tags_answer(r: Result<Vec<Tag>, RepositoryError>) -> Result<
    Seq<TagView>,
    RepositoryErrorView,
> {
    match r {
        Ok(tags) => Ok(tag_views(tags@)),
        Err(e) => Err(e@),
    }
}

/// Storage of users, tasks and tags. Every failure is one of the three kinds of
/// [`RepositoryError`].
///
/// For each operation an implementation says, in a relation of its own, which
/// answers the operation may give and what it may leave stored; the operation
/// promises an answer of that relation. Whatever the implementation, a
/// `NotFound` names the entity that the operation was asked for.
pub trait Repository {
    /// Whether `get_users` may give the answer.
    spec fn lists_users(&self, answer: Result<Seq<UserView>, RepositoryErrorView>) -> bool;

    /// Whether `get_user_by_id` may give the answer for `id`.
    spec fn finds_user(&self, id: Seq<char>, answer: Result<UserView, RepositoryErrorView>) -> bool;

    /// Whether `create_user` may lead from `self` to `after` with the outcome.
    spec fn creates_user(
        &self,
        user: UserView,
        after: &Self,
        outcome: Result<(), RepositoryErrorView>,
    ) -> bool;

    /// Whether `update_user` may lead from `self` to `after` with the outcome.
    spec fn updates_user(
        &self,
        user: UserView,
        after: &Self,
        outcome: Result<(), RepositoryErrorView>,
    ) -> bool;

    /// Whether `delete_user` may lead from `self` to `after` with the outcome.
    spec fn deletes_user(
        &self,
        id: Seq<char>,
        after: &Self,
        outcome: Result<(), RepositoryErrorView>,
    ) -> bool;

    /// Whether `get_tasks` may give the answer.
    spec fn lists_tasks(&self, answer: Result<Seq<TaskView>, RepositoryErrorView>) -> bool;

    /// Whether `get_task_by_id` may give the answer for `id`.
    spec fn finds_task(&self, id: Seq<char>, answer: Result<TaskView, RepositoryErrorView>) -> bool;

    /// Whether `create_task` may lead from `self` to `after` with the outcome.
    spec fn creates_task(
        &self,
        task: TaskView,
        after: &Self,
        outcome: Result<(), RepositoryErrorView>,
    ) -> bool;

    /// Whether `update_task` may lead from `self` to `after` with the outcome.
    spec fn updates_task(
        &self,
        task: TaskView,
        after: &Self,
        outcome: Result<(), RepositoryErrorView>,
    ) -> bool;

    /// Whether `delete_task` may lead from `self` to `after` with the outcome.
    spec fn deletes_task(
        &self,
        id: Seq<char>,
        after: &Self,
        outcome: Result<(), RepositoryErrorView>,
    ) -> bool;

    /// Whether `get_tags` may give the answer.
    spec fn lists_tags(&self, answer: Result<Seq<TagView>, RepositoryErrorView>) -> bool;

    /// Whether `get_tag_by_id` may give the answer for `id`.
    spec fn finds_tag(&self, id: Seq<char>, answer: Result<TagView, RepositoryErrorView>) -> bool;

    /// Whether `create_tag` may lead from `self` to `after` with the outcome.
    spec fn creates_tag(
        &self,
        tag: TagView,
        after: &Self,
        outcome: Result<(), RepositoryErrorView>,
    ) -> bool;

    /// Whether `get_tags_for_task` may give the answer for `task_id`.
    spec fn lists_tags_of(
        &self,
        task_id: Seq<char>,
        answer: Result<Seq<TagView>, RepositoryErrorView>,
    ) -> bool;

    /// Whether `add_tag_to_task` may lead from `self` to `after` with the
    /// outcome.
    spec fn adds_tag(
        &self,
        task_id: Seq<char>,
        tag_id: Seq<char>,
        after: &Self,
        outcome: Result<(), RepositoryErrorView>,
    ) -> bool;

    /// Whether `remove_tag_from_task` may lead from `self` to `after` with the
    /// outcome.
    spec fn removes_tag(
        &self,
        task_id: Seq<char>,
        tag_id: Seq<char>,
        after: &Self,
        outcome: Result<(), RepositoryErrorView>,
    ) -> bool;

    /// Every user, in no promised order.
    fn get_users(&self) -> (r: Result<Vec<User>, RepositoryError>)
        ensures
            self.lists_users(users_answer(r)),
            r matches Err(e) ==> !(e@ is NotFound),
    ;

    /// The user with the identifier `id`.
    fn get_user_by_id(&self, id: &str) -> (r: Result<User, RepositoryError>)
        ensures
            self.finds_user(id@, user_answer(r)),
            r matches Err(e) ==> (e@ is NotFound ==> e@ == RepositoryErrorView::NotFound(
                user_not_found(id@),
            )),
    ;

    /// Stores a new user.
    fn create_user(&mut self, user: &User) -> (r: Result<(), RepositoryError>)
        ensures
            old(self).creates_user(user@, final(self), outcome_view(r)),
            r matches Err(e) ==> !(e@ is NotFound),
    ;

    /// Replaces name, email and role of the user with the identifier of
    /// `user`.
    fn update_user(&mut self, user: &User) -> (r: Result<(), RepositoryError>)
        ensures
            old(self).updates_user(user@, final(self), outcome_view(r)),
            r matches Err(e) ==> (e@ is NotFound ==> e@ == RepositoryErrorView::NotFound(
                user_not_found(user.id@),
            )),
    ;

    /// Removes the user with the identifier `id`.
    fn delete_user(&mut self, id: &str) -> (r: Result<(), RepositoryError>)
        ensures
            old(self).deletes_user(id@, final(self), outcome_view(r)),
            r matches Err(e) ==> (e@ is NotFound ==> e@ == RepositoryErrorView::NotFound(
                user_not_found(id@),
            )),
    ;

    /// Every task with its tags, in no promised order.
    fn get_tasks(&self) -> (r: Result<Vec<Task>, RepositoryError>)
        ensures
            self.lists_tasks(tasks_answer(r)),
            r matches Err(e) ==> !(e@ is NotFound),
    ;

    /// The task with the identifier `id`, with its tags.
    fn get_task_by_id(&self, id: &str) -> (r: Result<Task, RepositoryError>)
        ensures
            self.finds_task(id@, task_answer(r)),
            r matches Err(e) ==> (e@ is NotFound ==> e@ == RepositoryErrorView::NotFound(
                task_not_found(id@),
            )),
    ;

    /// Stores a new task and marks it with exactly its tags, as one unit of
    /// work.
    fn create_task(&mut self, task: &Task) -> (r: Result<(), RepositoryError>)
        ensures
            old(self).creates_task(task@, final(self), outcome_view(r)),
            r matches Err(e) ==> (e@ is NotFound ==> task_reference_missing(task@, e@)),
    ;

    /// Replaces every field of the task but its creation instant, and its
    /// tags by exactly the tags of `task`, as one unit of work.
    fn update_task(&mut self, task: &Task) -> (r: Result<(), RepositoryError>)
        ensures
            old(self).updates_task(task@, final(self), outcome_view(r)),
            r matches Err(e) ==> (e@ is NotFound ==> task_reference_missing(task@, e@)),
    ;

    /// Removes the task with the identifier `id` and all its tag marks, as one
    /// unit of work.
    fn delete_task(&mut self, id: &str) -> (r: Result<(), RepositoryError>)
        ensures
            old(self).deletes_task(id@, final(self), outcome_view(r)),
            r matches Err(e) ==> (e@ is NotFound ==> e@ == RepositoryErrorView::NotFound(
                task_not_found(id@),
            )),
    ;

    /// Every tag, in no promised order.
    fn get_tags(&self) -> (r: Result<Vec<Tag>, RepositoryError>)
        ensures
            self.lists_tags(tags_answer(r)),
            r matches Err(e) ==> !(e@ is NotFound),
    ;

    /// The tag with the identifier `id`.
    fn get_tag_by_id(&self, id: &str) -> (r: Result<Tag, RepositoryError>)
        ensures
            self.finds_tag(id@, tag_answer(r)),
            r matches Err(e) ==> (e@ is NotFound ==> e@ == RepositoryErrorView::NotFound(
                tag_not_found(id@),
            )),
    ;

    /// Stores a new tag.
    fn create_tag(&mut self, tag: &Tag) -> (r: Result<(), RepositoryError>)
        ensures
            old(self).creates_tag(tag@, final(self), outcome_view(r)),
            r matches Err(e) ==> !(e@ is NotFound),
    ;

    /// The tags that the task is marked with; none for a task that is not
    /// stored.
    fn get_tags_for_task(&self, task_id: &str) -> (r: Result<Vec<Tag>, RepositoryError>)
        ensures
            self.lists_tags_of(task_id@, tags_answer(r)),
            r matches Err(e) ==> !(e@ is NotFound),
    ;

    /// Marks the task with the tag; a mark that is already there stays as it
    /// is.
    fn add_tag_to_task(&mut self, task_id: &str, tag_id: &str) -> (r: Result<
        (),
        RepositoryError,
    >)
        ensures
            old(self).adds_tag(task_id@, tag_id@, final(self), outcome_view(r)),
            r matches Err(e) ==> (e@ is NotFound ==> e@ == RepositoryErrorView::NotFound(
                task_not_found(task_id@),
            ) || e@ == RepositoryErrorView::NotFound(tag_not_found(tag_id@))),
    ;

    /// Takes the tag off the task.
    fn remove_tag_from_task(&mut self, task_id: &str, tag_id: &str) -> (r: Result<
        (),
        RepositoryError,
    >)
        ensures
            old(self).removes_tag(task_id@, tag_id@, final(self), outcome_view(r)),
            r matches Err(e) ==> (e@ is NotFound ==> e@ == RepositoryErrorView::NotFound(
                link_not_found(task_id@, tag_id@),
            )),
    ;
}

} // verus!
