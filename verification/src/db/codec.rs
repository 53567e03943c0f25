//! Entity codecs: how users, tags and tasks are laid out as rows of nullable
//! text, and how such rows are read back.

use super::error::{RepositoryError, RepositoryErrorView};
use crate::models::tag::{Tag, TagView};
use crate::models::task::tag_views;
use crate::models::task::{instant_of, Task, TaskPriority, TaskStatus, TaskView};
use crate::models::timestamp::{rfc3339_instant, rfc3339_text, Instant, Timestamp};
use crate::models::user::{User, UserRole, UserView};
use vstd::prelude::*;

verus! {

/// The mathematical value of a row: one cell for each column, `None` for NULL.
pub type RowView = Seq<Option<Seq<char>>>;

/// The value of one cell.
pub open spec fn cell_view(cell: Option<String>) -> Option<Seq<char>> {
    match cell {
        Some(s) => Some(s@),
        None => None,
    }
}

/// The value of a row.
pub open spec fn row_view(row: Seq<Option<String>>) -> RowView {
    row.map_values(|c: Option<String>| cell_view(c))
}

/// The values of a list of rows.
pub open spec fn rows_view(rows: Seq<Vec<Option<String>>>) -> Seq<RowView> {
    rows.map_values(|r: Vec<Option<String>>| row_view(r@))
}

/// Whether every one of the first `n` cells holds text.
pub open spec fn filled(row: RowView, n: int) -> bool {
    forall|i: int| 0 <= i < n ==> (#[trigger] row[i]) is Some
}

/// The complaint about a row that holds no user.
pub open spec fn malformed_user() -> RepositoryErrorView {
    RepositoryErrorView::Database("malformed user row"@)
}

/// The complaint about a row that holds no tag.
pub open spec fn malformed_tag() -> RepositoryErrorView {
    RepositoryErrorView::Database("malformed tag row"@)
}

/// The complaint about a row that holds no task.
pub open spec fn malformed_task() -> RepositoryErrorView {
    RepositoryErrorView::Database("malformed task row"@)
}

/// The row of a user: identifier, name, email, role token.
pub open spec fn user_row(u: UserView) -> RowView {
    seq![Some(u.id), Some(u.name), Some(u.email), Some(u.role.token())]
}

/// The arguments that rewrite a user: name, email, role token, identifier.
pub open spec fn user_update_row(u: UserView) -> RowView {
    seq![Some(u.name), Some(u.email), Some(u.role.token()), Some(u.id)]
}

/// The user that a row holds, if it is the row of a user.
pub open spec fn user_of_row(row: RowView) -> Option<UserView> {
    if row.len() == 4 && filled(row, 4) && UserRole::of_token(row[3]->0) is Some {
        Some(
            UserView {
                id: row[0]->0,
                name: row[1]->0,
                email: row[2]->0,
                role: UserRole::of_token(row[3]->0)->0,
            },
        )
    } else {
        None
    }
}

/// The row of a tag: identifier, name.
pub open spec fn tag_row(t: TagView) -> RowView {
    seq![Some(t.id), Some(t.name)]
}

/// The tag that a row holds, if it is the row of a tag.
pub open spec fn tag_of_row(row: RowView) -> Option<TagView> {
    if row.len() == 2 && filled(row, 2) {
        Some(TagView { id: row[0]->0, name: row[1]->0 })
    } else {
        None
    }
}

/// The stored text of an instant.
pub open spec fn instant_text(t: Instant) -> Seq<char> {
    rfc3339_text(t.secs, t.nanos)
}

/// The stored cell of an optional instant: NULL for none.
pub open spec fn instant_cell(t: Option<Instant>) -> Option<Seq<char>> {
    match t {
        Some(t) => Some(instant_text(t)),
        None => None,
    }
}

/// The instant that a stored text holds, if it is read. A leap second is held
/// as the last nanosecond of its second. A text whose instant lies outside
/// the years 0000 to 9999 in UTC holds none: the row that carries it is
/// refused as malformed.
pub open spec fn stored_instant(text: Seq<char>) -> Option<Instant> {
    match rfc3339_instant(text) {
        Some(p) => Timestamp::held(p.0, p.1),
        None => None,
    }
}

/// What a nullable cell of a timestamp column holds: `Some(None)` for NULL,
/// `None` where the text is no instant.
pub open spec fn stored_optional_instant(cell: Option<Seq<char>>) -> Option<Option<Instant>> {
    match cell {
        None => Some(None),
        Some(text) => match stored_instant(text) {
            Some(t) => Some(Some(t)),
            None => None,
        },
    }
}

/// The row of a task, without its tags: identifier, title, description,
/// status token, priority token, customer, executor, creation instant, due
/// date, completion instant.
pub open spec fn task_row(t: TaskView) -> RowView {
    seq![
        Some(t.id),
        Some(t.title),
        Some(t.description),
        Some(t.status.token()),
        Some(t.priority.token()),
        Some(t.customer_id),
        Some(t.executor_id),
        Some(instant_text(t.created_at)),
        instant_cell(t.due_date),
        instant_cell(t.completed_at),
    ]
}

/// The arguments that rewrite a task: every column that may change, then
/// the identifier. The creation instant is never rewritten.
pub open spec fn task_update_row(t: TaskView) -> RowView {
    seq![
        Some(t.title),
        Some(t.description),
        Some(t.status.token()),
        Some(t.priority.token()),
        Some(t.customer_id),
        Some(t.executor_id),
        instant_cell(t.due_date),
        instant_cell(t.completed_at),
        Some(t.id),
    ]
}

/// The task that a row holds, with no tags, if it is the row of a task.
pub open spec fn task_of_row(row: RowView) -> Option<TaskView> {
    if row.len() == 10 && filled(row, 8) && TaskStatus::of_token(row[3]->0) is Some
        && TaskPriority::of_token(row[4]->0) is Some && stored_instant(row[7]->0) is Some
        && stored_optional_instant(row[8]) is Some && stored_optional_instant(row[9]) is Some {
        Some(
            TaskView {
                id: row[0]->0,
                title: row[1]->0,
                description: row[2]->0,
                status: TaskStatus::of_token(row[3]->0)->0,
                priority: TaskPriority::of_token(row[4]->0)->0,
                customer_id: row[5]->0,
                executor_id: row[6]->0,
                created_at: stored_instant(row[7]->0)->0,
                due_date: stored_optional_instant(row[8])->0,
                completed_at: stored_optional_instant(row[9])->0,
                tags: Seq::empty(),
            },
        )
    } else {
        None
    }
}

/// Whether the store's text form gives the instant back when it is read.
pub open spec fn reads_back(t: Instant) -> bool {
    stored_instant(instant_text(t)) == Some(t)
}

/// Reading the row of a user gives the user back.
pub proof fn lemma_user_round_trip(u: UserView)
    ensures
        user_of_row(user_row(u)) == Some(u),
{
    u.role.lemma_token_round_trip();
}

/// Reading the row of a tag gives the tag back.
pub proof fn lemma_tag_round_trip(t: TagView)
    ensures
        tag_of_row(tag_row(t)) == Some(t),
{
}

/// Reading the row of a task gives the task back without its tags, as far as
/// the text form of its instants reads back.
pub proof fn lemma_task_round_trip(t: TaskView)
    requires
        reads_back(t.created_at),
        t.due_date matches Some(d) ==> reads_back(d),
        t.completed_at matches Some(c) ==> reads_back(c),
    ensures
        task_of_row(task_row(t)) == Some(TaskView { tags: Seq::empty(), ..t }),
{
    t.status.lemma_token_round_trip();
    t.priority.lemma_token_round_trip();
}

fn text_cell(s: &String) -> (r: Option<String>)
    ensures
        cell_view(r) == Some(s@),
{
    Some(s.clone())
}

fn token_cell(s: &str) -> (r: Option<String>)
    ensures
        cell_view(r) == Some(s@),
{
    Some(s.to_owned())
}

fn timestamp_cell(t: &Option<Timestamp>) -> (r: Option<String>)
    ensures
        cell_view(r) == instant_cell(instant_of(*t)),
{
    match t {
        Some(t) => Some(t.to_rfc3339()),
        None => None,
    }
}

/// The row that inserts a user.
pub fn encode_user(user: &User) -> (r: Vec<Option<String>>)
    ensures
        row_view(r@) == user_row(user@),
{
    let mut row: Vec<Option<String>> = Vec::new();
    row.push(text_cell(&user.id));
    row.push(text_cell(&user.name));
    row.push(text_cell(&user.email));
    row.push(token_cell(user.role.as_token()));
    assert(row_view(row@) =~= user_row(user@));
    row
}

/// The arguments that rewrite a user.
pub fn encode_user_update(user: &User) -> (r: Vec<Option<String>>)
    ensures
        row_view(r@) == user_update_row(user@),
{
    let mut row: Vec<Option<String>> = Vec::new();
    row.push(text_cell(&user.name));
    row.push(text_cell(&user.email));
    row.push(token_cell(user.role.as_token()));
    row.push(text_cell(&user.id));
    assert(row_view(row@) =~= user_update_row(user@));
    row
}

/// Reads the row of a user.
pub fn decode_user(row: &Vec<Option<String>>) -> (r: Result<User, RepositoryError>)
    ensures
        match user_of_row(row_view(row@)) {
            Some(v) => r matches Ok(u) && u@ == v,
            None => r matches Err(e) && e@ == malformed_user(),
        },
{
    let ghost rv = row_view(row@);
    if row.len() == 4 {
        if let Some(id) = &row[0] {
            if let Some(name) = &row[1] {
                if let Some(email) = &row[2] {
                    if let Some(token) = &row[3] {
                        assert(rv[0] == Some(id@) && rv[1] == Some(name@) && rv[2] == Some(email@)
                            && rv[3] == Some(token@));
                        if let Some(role) = UserRole::from_token(token.as_str()) {
                            return Ok(
                                User {
                                    id: id.clone(),
                                    name: name.clone(),
                                    email: email.clone(),
                                    role,
                                },
                            );
                        }
                    }
                }
            }
        }
    }
    assert(user_of_row(rv) is None) by {
        if rv.len() == 4 && filled(rv, 4) {
            assert(rv[0] is Some && rv[1] is Some && rv[2] is Some && rv[3] is Some);
        }
    }
    Err(RepositoryError::Database("malformed user row".to_owned()))
}

/// The row that inserts a tag.
pub fn encode_tag(tag: &Tag) -> (r: Vec<Option<String>>)
    ensures
        row_view(r@) == tag_row(tag@),
{
    let mut row: Vec<Option<String>> = Vec::new();
    row.push(text_cell(&tag.id));
    row.push(text_cell(&tag.name));
    assert(row_view(row@) =~= tag_row(tag@));
    row
}

/// Reads the row of a tag.
pub fn decode_tag(row: &Vec<Option<String>>) -> (r: Result<Tag, RepositoryError>)
    ensures
        match tag_of_row(row_view(row@)) {
            Some(v) => r matches Ok(t) && t@ == v,
            None => r matches Err(e) && e@ == malformed_tag(),
        },
{
    let ghost rv = row_view(row@);
    if row.len() == 2 {
        if let Some(id) = &row[0] {
            if let Some(name) = &row[1] {
                assert(rv[0] == Some(id@) && rv[1] == Some(name@));
                return Ok(Tag { id: id.clone(), name: name.clone() });
            }
        }
    }
    assert(tag_of_row(rv) is None) by {
        if rv.len() == 2 && filled(rv, 2) {
            assert(rv[0] is Some && rv[1] is Some);
        }
    }
    Err(RepositoryError::Database("malformed tag row".to_owned()))
}

/// The row that inserts a task.
pub fn encode_task(task: &Task) -> (r: Vec<Option<String>>)
    ensures
        row_view(r@) == task_row(task@),
{
    let mut row: Vec<Option<String>> = Vec::new();
    row.push(text_cell(&task.id));
    row.push(text_cell(&task.title));
    row.push(text_cell(&task.description));
    row.push(token_cell(task.status.as_token()));
    row.push(token_cell(task.priority.as_token()));
    row.push(text_cell(&task.customer_id));
    row.push(text_cell(&task.executor_id));
    row.push(Some(task.created_at.to_rfc3339()));
    row.push(timestamp_cell(&task.due_date));
    row.push(timestamp_cell(&task.completed_at));
    assert(row_view(row@) =~= task_row(task@));
    row
}

/// The arguments that rewrite a task.
pub fn encode_task_update(task: &Task) -> (r: Vec<Option<String>>)
    ensures
        row_view(r@) == task_update_row(task@),
{
    let mut row: Vec<Option<String>> = Vec::new();
    row.push(text_cell(&task.title));
    row.push(text_cell(&task.description));
    row.push(token_cell(task.status.as_token()));
    row.push(token_cell(task.priority.as_token()));
    row.push(text_cell(&task.customer_id));
    row.push(text_cell(&task.executor_id));
    row.push(timestamp_cell(&task.due_date));
    row.push(timestamp_cell(&task.completed_at));
    row.push(text_cell(&task.id));
    assert(row_view(row@) =~= task_update_row(task@));
    row
}

fn decode_instant(text: &str) -> (r: Option<Timestamp>)
    ensures
        instant_of(r) == stored_instant(text@),
{
    match Timestamp::parse_rfc3339(text) {
        Ok(t) => Some(t),
        Err(_) => None,
    }
}

fn decode_optional_instant(cell: &Option<String>) -> (r: Option<Option<Timestamp>>)
    ensures
        match stored_optional_instant(cell_view(*cell)) {
            Some(v) => r matches Some(t) && instant_of(t) == v,
            None => r is None,
        },
{
    match cell {
        None => Some(None),
        Some(text) => match decode_instant(text.as_str()) {
            Some(t) => Some(Some(t)),
            None => None,
        },
    }
}

/// Reads the row of a task. The task comes back without tags: they are no
/// column of the row. A row with a timestamp outside the years 0000 to 9999
/// is refused as malformed; a leap second is held as the last nanosecond of
/// its second.
pub fn decode_task(row: &Vec<Option<String>>) -> (r: Result<Task, RepositoryError>)
    ensures
        match task_of_row(row_view(row@)) {
            Some(v) => r matches Ok(t) && t@ == v,
            None => r matches Err(e) && e@ == malformed_task(),
        },
{
    let ghost rv = row_view(row@);
    if row.len() == 10 {
        if let Some(task) = decode_task_cells(row) {
            return Ok(task);
        }
    }
    Err(RepositoryError::Database("malformed task row".to_owned()))
}

fn decode_task_cells(row: &Vec<Option<String>>) -> (r: Option<Task>)
    requires
        row@.len() == 10,
    ensures
        match task_of_row(row_view(row@)) {
            Some(v) => r matches Some(t) && t@ == v,
            None => r is None,
        },
{
    let ghost rv = row_view(row@);
    proof {
        assert forall|i: int| 0 <= i < 10 implies #[trigger] rv[i] == cell_view(row@[i]) by {}
        if filled(rv, 8) {
            assert(rv[0] is Some && rv[1] is Some && rv[2] is Some && rv[3] is Some);
            assert(rv[4] is Some && rv[5] is Some && rv[6] is Some && rv[7] is Some);
        }
    }
    let id = match &row[0] {
        Some(s) => s.clone(),
        None => return None,
    };
    let title = match &row[1] {
        Some(s) => s.clone(),
        None => return None,
    };
    let description = match &row[2] {
        Some(s) => s.clone(),
        None => return None,
    };
    let status = match &row[3] {
        Some(s) => match TaskStatus::from_token(s.as_str()) {
            Some(v) => v,
            None => return None,
        },
        None => return None,
    };
    let priority = match &row[4] {
        Some(s) => match TaskPriority::from_token(s.as_str()) {
            Some(v) => v,
            None => return None,
        },
        None => return None,
    };
    let customer_id = match &row[5] {
        Some(s) => s.clone(),
        None => return None,
    };
    let executor_id = match &row[6] {
        Some(s) => s.clone(),
        None => return None,
    };
    let created_at = match &row[7] {
        Some(s) => match decode_instant(s.as_str()) {
            Some(v) => v,
            None => return None,
        },
        None => return None,
    };
    let due_date = match decode_optional_instant(&row[8]) {
        Some(v) => v,
        None => return None,
    };
    let completed_at = match decode_optional_instant(&row[9]) {
        Some(v) => v,
        None => return None,
    };
    proof {
        assert(filled(rv, 8));
    }
    let task = Task {
        id,
        title,
        description,
        status,
        priority,
        customer_id,
        executor_id,
        created_at,
        due_date,
        completed_at,
        tags: Vec::new(),
    };
    assert(task@.tags =~= Seq::empty());
    Some(task)
}

/// The users that a list of rows holds, in order, if every row is the row of
/// a user.
pub open spec fn users_of_rows(rows: Seq<RowView>) -> Option<Seq<UserView>> {
    if forall|i: int| 0 <= i < rows.len() ==> user_of_row(#[trigger] rows[i]) is Some {
        Some(Seq::new(rows.len(), |i: int| user_of_row(rows[i])->0))
    } else {
        None
    }
}

/// The tags that a list of rows holds, in order, if every row is the row of a
/// tag.
pub open spec fn tags_of_rows(rows: Seq<RowView>) -> Option<Seq<TagView>> {
    if forall|i: int| 0 <= i < rows.len() ==> tag_of_row(#[trigger] rows[i]) is Some {
        Some(Seq::new(rows.len(), |i: int| tag_of_row(rows[i])->0))
    } else {
        None
    }
}

/// The tasks that a list of rows holds, in order and without tags, if every
/// row is the row of a task.
pub open spec fn tasks_of_rows(rows: Seq<RowView>) -> Option<Seq<TaskView>> {
    if forall|i: int| 0 <= i < rows.len() ==> task_of_row(#[trigger] rows[i]) is Some {
        Some(Seq::new(rows.len(), |i: int| task_of_row(rows[i])->0))
    } else {
        None
    }
}

/// The values of a list of users, in order.
pub open spec fn user_views(users: Seq<User>) -> Seq<UserView> {
    users.map_values(|u: User| u@)
}

/// The values of a list of tasks, in order.
pub open spec fn task_views(tasks: Seq<Task>) -> Seq<TaskView> {
    tasks.map_values(|t: Task| t@)
}

/// Reads the rows of users.
pub fn decode_users(rows: &Vec<Vec<Option<String>>>) -> (r: Result<Vec<User>, RepositoryError>)
    ensures
        match users_of_rows(rows_view(rows@)) {
            Some(v) => r matches Ok(users) && user_views(users@) == v,
            None => r matches Err(e) && e@ == malformed_user(),
        },
{
    let ghost rv = rows_view(rows@);
    let mut users: Vec<User> = Vec::new();
    let mut i: usize = 0;
    while i < rows.len()
        invariant
            i <= rows.len(),
            rv == rows_view(rows@),
            users@.len() == i,
            forall|k: int| 0 <= k < i ==> user_of_row(#[trigger] rv[k]) == Some(users@[k]@),
        decreases rows.len() - i,
    {
        assert(rv[i as int] == row_view(rows@[i as int]@));
        match decode_user(&rows[i]) {
            Ok(user) => users.push(user),
            Err(e) => {
                assert(user_of_row(rv[i as int]) is None);
                return Err(e);
            },
        }
        i += 1;
    }
    assert(user_views(users@) =~= users_of_rows(rv)->0);
    Ok(users)
}

/// Reads the rows of tags.
pub fn decode_tags(rows: &Vec<Vec<Option<String>>>) -> (r: Result<Vec<Tag>, RepositoryError>)
    ensures
        match tags_of_rows(rows_view(rows@)) {
            Some(v) => r matches Ok(tags) && tag_views(tags@) == v,
            None => r matches Err(e) && e@ == malformed_tag(),
        },
{
    let ghost rv = rows_view(rows@);
    let mut tags: Vec<Tag> = Vec::new();
    let mut i: usize = 0;
    while i < rows.len()
        invariant
            i <= rows.len(),
            rv == rows_view(rows@),
            tags@.len() == i,
            forall|k: int| 0 <= k < i ==> tag_of_row(#[trigger] rv[k]) == Some(tags@[k]@),
        decreases rows.len() - i,
    {
        assert(rv[i as int] == row_view(rows@[i as int]@));
        match decode_tag(&rows[i]) {
            Ok(tag) => tags.push(tag),
            Err(e) => {
                assert(tag_of_row(rv[i as int]) is None);
                return Err(e);
            },
        }
        i += 1;
    }
    assert(tag_views(tags@) =~= tags_of_rows(rv)->0);
    Ok(tags)
}

/// Reads the rows of tasks. The tasks come back without tags.
pub fn decode_tasks(rows: &Vec<Vec<Option<String>>>) -> (r: Result<Vec<Task>, RepositoryError>)
    ensures
        match tasks_of_rows(rows_view(rows@)) {
            Some(v) => r matches Ok(tasks) && task_views(tasks@) == v,
            None => r matches Err(e) && e@ == malformed_task(),
        },
{
    let ghost rv = rows_view(rows@);
    let mut tasks: Vec<Task> = Vec::new();
    let mut i: usize = 0;
    while i < rows.len()
        invariant
            i <= rows.len(),
            rv == rows_view(rows@),
            tasks@.len() == i,
            forall|k: int| 0 <= k < i ==> task_of_row(#[trigger] rv[k]) == Some(tasks@[k]@),
        decreases rows.len() - i,
    {
        assert(rv[i as int] == row_view(rows@[i as int]@));
        match decode_task(&rows[i]) {
            Ok(task) => tasks.push(task),
            Err(e) => {
                assert(task_of_row(rv[i as int]) is None);
                return Err(e);
            },
        }
        i += 1;
    }
    assert(task_views(tasks@) =~= tasks_of_rows(rv)->0);
    Ok(tasks)
}

/// Whether the store's text form gives the timestamp back when it is read:
/// writes it, reads the text, and compares.
pub fn reads_back_check(t: &Timestamp) -> (r: bool)
    ensures
        r == reads_back(t@),
{
    match Timestamp::parse_rfc3339(t.to_rfc3339().as_str()) {
        Ok(back) => back.same(t),
        Err(_) => false,
    }
}

} // verus!
