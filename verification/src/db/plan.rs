//! Which statements a write of the repository issues, in which order and with
//! which arguments.

use super::codec::{
    cell_view, encode_task, encode_task_update, row_view, task_row, task_update_row, RowView,
};
use super::error::{
    tag_not_found, task_not_found, user_not_found, RepositoryError, RepositoryErrorView,
};
use super::repository::task_reference_missing;
use crate::models::tag::{Tag, TagView};
use crate::models::task::{tag_views, Task, TaskView};
use vstd::prelude::*;

verus! {

/// Asks for the user with an identifier.
pub const USER_EXISTS: &'static str = "SELECT id FROM users WHERE id = ?";

/// Asks for the task with an identifier.
pub const TASK_EXISTS: &'static str = "SELECT id FROM tasks WHERE id = ?";

/// Asks for the tag with an identifier.
pub const TAG_EXISTS: &'static str = "SELECT id FROM tags WHERE id = ?";

/// Inserts the row of a task.
pub const INSERT_TASK: &'static str =
    "INSERT INTO tasks (id, title, description, status, priority, customer_id, executor_id,
                              created_at, due_date, completed_at)
             VALUES (?, ?, ?, ?, ?, ?, ?, ?, ?, ?)";

/// Rewrites every column of a task that may change.
pub const UPDATE_TASK: &'static str = "UPDATE tasks
             SET title = ?, description = ?, status = ?, priority = ?,
                 customer_id = ?, executor_id = ?, due_date = ?, completed_at = ?
             WHERE id = ?";

/// Deletes every mark of a task.
pub const DELETE_TASK_TAGS: &'static str = "DELETE FROM task_tags WHERE task_id = ?";

/// Inserts a mark, unless it is there.
pub const INSERT_TASK_TAG: &'static str =
    "INSERT OR IGNORE INTO task_tags (task_id, tag_id) VALUES (?, ?)";

/// Deletes the row of a task.
pub const DELETE_TASK: &'static str = "DELETE FROM tasks WHERE id = ?";

/// One statement of a unit of work.
#[derive(Debug)]
pub enum Step {
    /// Ask for the user with the identifier; no row means not found.
    RequireUser(String),
    /// Ask for the task with the identifier; no row means not found.
    RequireTask(String),
    /// Ask for the tag with the identifier; no row means not found.
    RequireTag(String),
    /// Insert the row of a task.
    InsertTask(Vec<Option<String>>),
    /// Rewrite the task with the identifier by the arguments; no changed row
    /// means not found.
    UpdateTask(Vec<Option<String>>, String),
    /// Delete every mark of the task.
    DeleteMarks(String),
    /// Insert the mark of the task with the tag, unless it is there.
    InsertMark(String, String),
    /// Delete the task with the identifier; no changed row means not found.
    DeleteTask(String),
}

/// The mathematical value of a [`Step`].
pub enum StepView {
    RequireUser(Seq<char>),
    RequireTask(Seq<char>),
    RequireTag(Seq<char>),
    InsertTask(RowView),
    UpdateTask(RowView, Seq<char>),
    DeleteMarks(Seq<char>),
    InsertMark(Seq<char>, Seq<char>),
    DeleteTask(Seq<char>),
}

impl View for Step {
    type V = StepView;

    open spec fn view(&self) -> StepView {
        match self {
            Step::RequireUser(id) => StepView::RequireUser(id@),
            Step::RequireTask(id) => StepView::RequireTask(id@),
            Step::RequireTag(id) => StepView::RequireTag(id@),
            Step::InsertTask(row) => StepView::InsertTask(row_view(row@)),
            Step::UpdateTask(row, id) => StepView::UpdateTask(row_view(row@), id@),
            Step::DeleteMarks(id) => StepView::DeleteMarks(id@),
            Step::InsertMark(task_id, tag_id) => StepView::InsertMark(task_id@, tag_id@),
            Step::DeleteTask(id) => StepView::DeleteTask(id@),
        }
    }
}

/// The values of a list of steps, in order.
pub open spec fn step_views(steps: Seq<Step>) -> Seq<StepView> {
    steps.map_values(|s: Step| s@)
}

/// How the answer of the engine to a step is read.
#[derive(Debug, Clone, Copy, PartialEq, Eq, Structural)]
pub enum Reading {
    /// The step fails only where the engine does.
    Written,
    /// No changed row means not found.
    Changed,
    /// No row means not found.
    Present,
}

impl StepView {
    /// The text of the statement.
    pub open spec fn sql(self) -> Seq<char> {
        match self {
            StepView::RequireUser(_) => USER_EXISTS@,
            StepView::RequireTask(_) => TASK_EXISTS@,
            StepView::RequireTag(_) => TAG_EXISTS@,
            StepView::InsertTask(_) => INSERT_TASK@,
            StepView::UpdateTask(_, _) => UPDATE_TASK@,
            StepView::DeleteMarks(_) => DELETE_TASK_TAGS@,
            StepView::InsertMark(_, _) => INSERT_TASK_TAG@,
            StepView::DeleteTask(_) => DELETE_TASK@,
        }
    }

    /// The arguments of the statement, in order.
    pub open spec fn args(self) -> RowView {
        match self {
            StepView::RequireUser(id) => seq![Some(id)],
            StepView::RequireTask(id) => seq![Some(id)],
            StepView::RequireTag(id) => seq![Some(id)],
            StepView::InsertTask(row) => row,
            StepView::UpdateTask(row, _) => row,
            StepView::DeleteMarks(id) => seq![Some(id)],
            StepView::InsertMark(task_id, tag_id) => seq![Some(task_id), Some(tag_id)],
            StepView::DeleteTask(id) => seq![Some(id)],
        }
    }

    /// How the answer to the statement is read.
    pub open spec fn reading(self) -> Reading {
        match self {
            StepView::RequireUser(_) => Reading::Present,
            StepView::RequireTask(_) => Reading::Present,
            StepView::RequireTag(_) => Reading::Present,
            StepView::UpdateTask(_, _) => Reading::Changed,
            StepView::DeleteTask(_) => Reading::Changed,
            _ => Reading::Written,
        }
    }

    /// Whether `e` is a failure that the step may end in: a fault of the
    /// engine, or what the step reports as missing.
    pub open spec fn may_fail_with(self, e: RepositoryErrorView) -> bool {
        e is Database || self.missing() == Some(e)
    }

    /// What the step reports where what it asks for is missing.
    pub open spec fn missing(self) -> Option<RepositoryErrorView> {
        match self {
            StepView::RequireUser(id) => Some(RepositoryErrorView::NotFound(user_not_found(id))),
            StepView::RequireTask(id) => Some(RepositoryErrorView::NotFound(task_not_found(id))),
            StepView::RequireTag(id) => Some(RepositoryErrorView::NotFound(tag_not_found(id))),
            StepView::UpdateTask(_, id) => Some(
                RepositoryErrorView::NotFound(task_not_found(id)),
            ),
            StepView::DeleteTask(id) => Some(RepositoryErrorView::NotFound(task_not_found(id))),
            _ => None,
        }
    }
}

/// The value of what a step may report as missing.
pub open spec fn missing_view(e: Option<RepositoryError>) -> Option<RepositoryErrorView> {
    match e {
        Some(e) => Some(e@),
        None => None,
    }
}

fn one(a: &String) -> (r: Vec<Option<String>>)
    ensures
        row_view(r@) == seq![Some(a@)],
{
    let mut args: Vec<Option<String>> = Vec::new();
    args.push(Some(a.clone()));
    assert(row_view(args@) =~= seq![Some(a@)]);
    args
}

fn copy_row(row: &Vec<Option<String>>) -> (r: Vec<Option<String>>)
    ensures
        row_view(r@) == row_view(row@),
{
    let mut out: Vec<Option<String>> = Vec::new();
    let mut i: usize = 0;
    while i < row.len()
        invariant
            i <= row.len(),
            out@.len() == i,
            forall|k: int| 0 <= k < i ==> cell_view(#[trigger] out@[k]) == cell_view(row@[k]),
        decreases row.len() - i,
    {
        let cell = match &row[i] {
            Some(s) => Some(s.clone()),
            None => None,
        };
        out.push(cell);
        i += 1;
    }
    assert(row_view(out@) =~= row_view(row@));
    out
}

impl Step {
    /// The text of the statement.
    pub fn sql(&self) -> (r: &'static str)
        ensures
            r@ == self@.sql(),
    {
        match self {
            Step::RequireUser(_) => USER_EXISTS,
            Step::RequireTask(_) => TASK_EXISTS,
            Step::RequireTag(_) => TAG_EXISTS,
            Step::InsertTask(_) => INSERT_TASK,
            Step::UpdateTask(_, _) => UPDATE_TASK,
            Step::DeleteMarks(_) => DELETE_TASK_TAGS,
            Step::InsertMark(_, _) => INSERT_TASK_TAG,
            Step::DeleteTask(_) => DELETE_TASK,
        }
    }

    /// The arguments of the statement, in order.
    pub fn args(&self) -> (r: Vec<Option<String>>)
        ensures
            row_view(r@) == self@.args(),
    {
        match self {
            Step::RequireUser(id) => one(id),
            Step::RequireTask(id) => one(id),
            Step::RequireTag(id) => one(id),
            Step::InsertTask(row) => copy_row(row),
            Step::UpdateTask(row, _) => copy_row(row),
            Step::DeleteMarks(id) => one(id),
            Step::InsertMark(task_id, tag_id) => {
                let mut args: Vec<Option<String>> = Vec::new();
                args.push(Some(task_id.clone()));
                args.push(Some(tag_id.clone()));
                assert(row_view(args@) =~= seq![Some(task_id@), Some(tag_id@)]);
                args
            },
            Step::DeleteTask(id) => one(id),
        }
    }

    /// How the answer to the statement is read.
    pub fn reading(&self) -> (r: Reading)
        ensures
            r == self@.reading(),
    {
        match self {
            Step::RequireUser(_) => Reading::Present,
            Step::RequireTask(_) => Reading::Present,
            Step::RequireTag(_) => Reading::Present,
            Step::UpdateTask(_, _) => Reading::Changed,
            Step::DeleteTask(_) => Reading::Changed,
            _ => Reading::Written,
        }
    }

    /// What the step reports where what it asks for is missing.
    pub fn missing(&self) -> (r: Option<RepositoryError>)
        ensures
            missing_view(r) == self@.missing(),
    {
        match self {
            Step::RequireUser(id) => Some(RepositoryError::user_not_found(id.as_str())),
            Step::RequireTask(id) => Some(RepositoryError::task_not_found(id.as_str())),
            Step::RequireTag(id) => Some(RepositoryError::tag_not_found(id.as_str())),
            Step::UpdateTask(_, id) => Some(RepositoryError::task_not_found(id.as_str())),
            Step::DeleteTask(id) => Some(RepositoryError::task_not_found(id.as_str())),
            _ => None,
        }
    }
}

/// The step at place `j` of the steps that mark a task with tags: for each tag
/// in order, ask for the task, ask for the tag, insert the mark.
pub open spec fn mark_step(task_id: Seq<char>, tags: Seq<TagView>, j: int) -> StepView {
    if j % 3 == 0 {
        StepView::RequireTask(task_id)
    } else if j % 3 == 1 {
        StepView::RequireTag(tags[j / 3].id)
    } else {
        StepView::InsertMark(task_id, tags[j / 3].id)
    }
}

/// The steps that mark a task with tags: three for each tag, in the order of
/// the tags.
pub open spec fn marks(task_id: Seq<char>, tags: Seq<TagView>) -> Seq<StepView> {
    Seq::new((3 * tags.len()) as nat, |j: int| mark_step(task_id, tags, j))
}

/// The steps that create a task: ask for its customer and its executor,
/// insert its row, mark it with each of its tags.
pub open spec fn create_task_steps(t: TaskView) -> Seq<StepView> {
    seq![
        StepView::RequireUser(t.customer_id),
        StepView::RequireUser(t.executor_id),
        StepView::InsertTask(task_row(t)),
    ] + marks(t.id, t.tags)
}

/// The steps that update a task: rewrite its row, ask for its customer and its
/// executor, delete all its marks, mark it with each of its tags.
pub open spec fn update_task_steps(t: TaskView) -> Seq<StepView> {
    seq![
        StepView::UpdateTask(task_update_row(t), t.id),
        StepView::RequireUser(t.customer_id),
        StepView::RequireUser(t.executor_id),
        StepView::DeleteMarks(t.id),
    ] + marks(t.id, t.tags)
}

/// The steps that delete a task: delete all its marks, then its row.
pub open spec fn delete_task_steps(id: Seq<char>) -> Seq<StepView> {
    seq![StepView::DeleteMarks(id), StepView::DeleteTask(id)]
}

/// The steps that mark a task with one tag: ask for the task, ask for the
/// tag, insert the mark.
pub open spec fn add_tag_steps(task_id: Seq<char>, tag_id: Seq<char>) -> Seq<StepView> {
    seq![
        StepView::RequireTask(task_id),
        StepView::RequireTag(tag_id),
        StepView::InsertMark(task_id, tag_id),
    ]
}

/// `plan`, and after it the steps that mark the task with the tags.
pub fn with_marks(plan: Vec<Step>, task_id: &str, tags: &Vec<Tag>) -> (r: Vec<Step>)
    ensures
        step_views(r@) == step_views(plan@) + marks(task_id@, tag_views(tags@)),
{
    let ghost first = step_views(plan@);
    let ghost wanted = tag_views(tags@);
    let mut out = plan;
    let mut i: usize = 0;
    proof {
        assert(step_views(out@) =~= first + Seq::new(0, |j: int| mark_step(task_id@, wanted, j)));
    }
    while i < tags.len()
        invariant
            i <= tags.len(),
            wanted == tag_views(tags@),
            step_views(out@) == first + Seq::new(
                (3 * i) as nat,
                |j: int| mark_step(task_id@, wanted, j),
            ),
        decreases tags.len() - i,
    {
        let ghost before = step_views(out@);
        out.push(Step::RequireTask(task_id.to_owned()));
        out.push(Step::RequireTag(tags[i].id.clone()));
        out.push(Step::InsertMark(task_id.to_owned(), tags[i].id.clone()));
        proof {
            let now = step_views(out@);
            let tag = tags@[i as int]@.id;
            assert(now =~= before.push(StepView::RequireTask(task_id@)).push(
                StepView::RequireTag(tag),
            ).push(StepView::InsertMark(task_id@, tag)));
            assert(wanted[i as int].id == tag);
            assert(now =~= first + Seq::new(
                (3 * (i + 1)) as nat,
                |j: int| mark_step(task_id@, wanted, j),
            )) by {
                assert forall|k: int| 0 <= k < now.len() implies now[k] == (first + Seq::new(
                    (3 * (i + 1)) as nat,
                    |j: int| mark_step(task_id@, wanted, j),
                ))[k] by {
                    let j = k - first.len();
                    if j >= 3 * i {
                        assert(j == 3 * i || j == 3 * i + 1 || j == 3 * i + 2);
                        assert(j / 3 == i as int);
                    }
                }
            }
        }
        i += 1;
    }
    out
}

/// The steps that create the task.
pub fn create_task_plan(task: &Task) -> (r: Vec<Step>)
    ensures
        step_views(r@) == create_task_steps(task@),
{
    let mut plan: Vec<Step> = Vec::new();
    plan.push(Step::RequireUser(task.customer_id.clone()));
    plan.push(Step::RequireUser(task.executor_id.clone()));
    plan.push(Step::InsertTask(encode_task(task)));
    proof {
        assert(step_views(plan@) =~= seq![
            StepView::RequireUser(task@.customer_id),
            StepView::RequireUser(task@.executor_id),
            StepView::InsertTask(task_row(task@)),
        ]);
    }
    with_marks(plan, task.id.as_str(), &task.tags)
}

/// The steps that update the task.
pub fn update_task_plan(task: &Task) -> (r: Vec<Step>)
    ensures
        step_views(r@) == update_task_steps(task@),
{
    let mut plan: Vec<Step> = Vec::new();
    plan.push(Step::UpdateTask(encode_task_update(task), task.id.clone()));
    plan.push(Step::RequireUser(task.customer_id.clone()));
    plan.push(Step::RequireUser(task.executor_id.clone()));
    plan.push(Step::DeleteMarks(task.id.clone()));
    proof {
        assert(step_views(plan@) =~= seq![
            StepView::UpdateTask(task_update_row(task@), task@.id),
            StepView::RequireUser(task@.customer_id),
            StepView::RequireUser(task@.executor_id),
            StepView::DeleteMarks(task@.id),
        ]);
    }
    with_marks(plan, task.id.as_str(), &task.tags)
}

/// The steps that delete the task with the identifier.
pub fn delete_task_plan(id: &str) -> (r: Vec<Step>)
    ensures
        step_views(r@) == delete_task_steps(id@),
{
    let mut plan: Vec<Step> = Vec::new();
    plan.push(Step::DeleteMarks(id.to_owned()));
    plan.push(Step::DeleteTask(id.to_owned()));
    proof {
        assert(step_views(plan@) =~= delete_task_steps(id@));
    }
    plan
}

/// The steps that mark the task with the tag.
pub fn add_tag_plan(task_id: &str, tag_id: &str) -> (r: Vec<Step>)
    ensures
        step_views(r@) == add_tag_steps(task_id@, tag_id@),
{
    let mut plan: Vec<Step> = Vec::new();
    plan.push(Step::RequireTask(task_id.to_owned()));
    plan.push(Step::RequireTag(tag_id.to_owned()));
    plan.push(Step::InsertMark(task_id.to_owned(), tag_id.to_owned()));
    proof {
        assert(step_views(plan@) =~= add_tag_steps(task_id@, tag_id@));
    }
    plan
}

/// A not found that a step of creating a task ends in names what the task
/// depends on: its customer, its executor, the task itself or one of its
/// tags.
pub proof fn lemma_create_task_faults(t: TaskView, k: int, e: RepositoryErrorView)
    requires
        0 <= k < create_task_steps(t).len(),
        create_task_steps(t)[k].missing() == Some(e),
    ensures
        task_reference_missing(t, e),
{
    if k >= 3 {
        let j = k - 3;
        assert(create_task_steps(t)[k] == mark_step(t.id, t.tags, j));
        assert(0 <= j / 3 < t.tags.len());
    }
}

/// A not found that a step of updating a task ends in names what the task
/// depends on: the task itself, its customer, its executor or one of its
/// tags.
pub proof fn lemma_update_task_faults(t: TaskView, k: int, e: RepositoryErrorView)
    requires
        0 <= k < update_task_steps(t).len(),
        update_task_steps(t)[k].missing() == Some(e),
    ensures
        task_reference_missing(t, e),
{
    if k >= 4 {
        let j = k - 4;
        assert(update_task_steps(t)[k] == mark_step(t.id, t.tags, j));
        assert(0 <= j / 3 < t.tags.len());
    }
}

} // verus!
