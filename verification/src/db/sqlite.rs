//! The repository on SQLite: statements run on pooled connections, and every
//! write of more than one statement runs inside a transaction.

use super::codec::{encode_tag, encode_user, encode_user_update};
use super::error::{
    link_not_found, tag_not_found, task_not_found, user_not_found, RepositoryError,
    RepositoryErrorView,
};
use super::outcome::{
    changed, found_tag, found_task, found_user, listed_tags, listed_tasks, listed_users, present,
    tagged, written, Answer, Change,
};
use super::model::row_of;
use super::plan::{
    add_tag_plan, add_tag_steps, create_task_plan, create_task_steps, delete_task_plan,
    delete_task_steps, lemma_create_task_faults, lemma_update_task_faults, step_views,
    update_task_plan, update_task_steps, Reading, Step, StepView,
};
use super::repository::Repository;
use crate::models::tag::{Tag, TagView};
use crate::models::task::{Task, TaskView};
use crate::models::user::{User, UserView};
use r2d2::{Pool, PooledConnection};
use r2d2_sqlite::SqliteConnectionManager;
use rusqlite::Connection;
use std::sync::Arc;
use vstd::prelude::*;

verus! {

/// rusqlite's `Connection`: one open SQLite database. Nothing of what it
/// holds is visible here.
#[verifier::external_type_specification]
#[verifier::external_body]
pub struct ExConnection(rusqlite::Connection);

/// rusqlite's `Error`: why the engine refused or failed.
#[verifier::external_type_specification]
#[verifier::external_body]
pub struct ExSqlError(rusqlite::Error);

/// r2d2's `Error`: why the pool gave no connection.
#[verifier::external_type_specification]
#[verifier::external_body]
pub struct ExPoolError(r2d2::Error);

/// A bounded pool of connections to one SQLite database: r2d2's `Pool` over
/// the SQLite connection manager.
#[verifier::external_body]
pub struct DbPool {
    inner: Pool<SqliteConnectionManager>,
}

/// A connection on loan from a [`DbPool`]: r2d2's `PooledConnection`. It goes
/// back to the pool when it is dropped.
#[verifier::external_body]
pub struct PooledDb {
    inner: PooledConnection<SqliteConnectionManager>,
}

const CREATE_USERS: &'static str = "CREATE TABLE IF NOT EXISTS users (
                id TEXT PRIMARY KEY,
                name TEXT NOT NULL,
                email TEXT NOT NULL UNIQUE,
                role TEXT NOT NULL
            )";

const CREATE_TAGS: &'static str = "CREATE TABLE IF NOT EXISTS tags (
                id TEXT PRIMARY KEY,
                name TEXT NOT NULL UNIQUE
            )";

const CREATE_TASKS: &'static str = "CREATE TABLE IF NOT EXISTS tasks (
                id TEXT PRIMARY KEY,
                title TEXT NOT NULL,
                description TEXT NOT NULL,
                status TEXT NOT NULL,
                priority TEXT NOT NULL,
                customer_id TEXT NOT NULL,
                executor_id TEXT NOT NULL,
                created_at TEXT NOT NULL,
                due_date TEXT,
                completed_at TEXT,
                FOREIGN KEY (customer_id) REFERENCES users (id),
                FOREIGN KEY (executor_id) REFERENCES users (id)
            )";

const CREATE_TASK_TAGS: &'static str = "CREATE TABLE IF NOT EXISTS task_tags (
                task_id TEXT NOT NULL,
                tag_id TEXT NOT NULL,
                PRIMARY KEY (task_id, tag_id),
                FOREIGN KEY (task_id) REFERENCES tasks (id),
                FOREIGN KEY (tag_id) REFERENCES tags (id)
            )";

const SELECT_USERS: &'static str = "SELECT id, name, email, role FROM users";

const SELECT_USER: &'static str = "SELECT id, name, email, role FROM users WHERE id = ?";

const INSERT_USER: &'static str =
    "INSERT INTO users (id, name, email, role) VALUES (?, ?, ?, ?)";

const UPDATE_USER: &'static str =
    "UPDATE users SET name = ?, email = ?, role = ? WHERE id = ?";

const DELETE_USER: &'static str = "DELETE FROM users WHERE id = ?";

const SELECT_TASKS: &'static str =
    "SELECT id, title, description, status, priority, customer_id, executor_id,
                    created_at, due_date, completed_at
             FROM tasks";

const SELECT_TASK: &'static str =
    "SELECT id, title, description, status, priority, customer_id, executor_id,
                    created_at, due_date, completed_at
             FROM tasks WHERE id = ?";

const SELECT_TAGS: &'static str = "SELECT id, name FROM tags";

const SELECT_TAG: &'static str = "SELECT id, name FROM tags WHERE id = ?";

const INSERT_TAG: &'static str = "INSERT INTO tags (id, name) VALUES (?, ?)";

const SELECT_TASK_TAGS: &'static str = "SELECT t.id, t.name
             FROM tags t
             JOIN task_tags tt ON t.id = tt.tag_id
             WHERE tt.task_id = ?";

const DELETE_TASK_TAG: &'static str =
    "DELETE FROM task_tags WHERE task_id = ? AND tag_id = ?";

const BEGIN: &'static str = "BEGIN IMMEDIATE";

const COMMIT: &'static str = "COMMIT";

const ROLLBACK: &'static str = "ROLLBACK";

/// Builds the pool with r2d2's `Pool::new` over r2d2_sqlite's
/// `SqliteConnectionManager::file` for `path`. Whether it succeeds depends on
/// the file system, so nothing is promised.
#[verifier::external_body]
fn pool_open(path: &str) -> (r: Result<DbPool, r2d2::Error>) {
    match Pool::new(SqliteConnectionManager::file(path)) {
        Ok(inner) => Ok(DbPool { inner }),
        Err(e) => Err(e),
    }
}

/// Takes a connection with r2d2's `Pool::get`, which waits until one is free
/// or the pool's timeout has passed. Nothing is promised of the outcome.
#[verifier::external_body]
fn pool_get(pool: &DbPool) -> (r: Result<PooledDb, r2d2::Error>) {
    match pool.inner.get() {
        Ok(inner) => Ok(PooledDb { inner }),
        Err(e) => Err(e),
    }
}

/// The SQLite connection behind a pooled one: `PooledConnection`'s `deref`.
#[verifier::external_body]
fn pooled_connection(held: &PooledDb) -> (r: &Connection) {
    &*held.inner
}

/// Runs one statement with rusqlite's `Connection::execute`, binding `args`
/// in order as text or NULL, and hands back the number of rows it changed.
/// The outcome depends on what the database holds, so nothing is promised.
#[verifier::external_body]
fn run_execute(conn: &Connection, sql: &str, args: &Vec<Option<String>>) -> (r: Result<
    usize,
    rusqlite::Error,
>) {
    conn.execute(sql, rusqlite::params_from_iter(args.iter()))
}

/// Runs one query with rusqlite's `Connection::prepare` and
/// `Statement::query_map`, binding `args` in order as text or NULL, and reads
/// the first `width` columns of every row as text or NULL. Which rows come
/// back depends on what the database holds; each has `width` cells.
#[verifier::external_body]
fn run_query(conn: &Connection, sql: &str, args: &Vec<Option<String>>, width: usize) -> (r: Result<
    Vec<Vec<Option<String>>>,
    rusqlite::Error,
>)
    ensures
        r matches Ok(rows) ==> forall|i: int|
            0 <= i < rows@.len() ==> (#[trigger] rows@[i])@.len() == width,
{
    let mut statement = conn.prepare(sql)?;
    let rows = statement.query_map(
        rusqlite::params_from_iter(args.iter()),
        |row| (0..width).map(|i| row.get::<usize, Option<String>>(i)).collect(),
    )?;
    rows.collect()
}

/// One statement: how many rows it changed, or the engine's message.
fn execute(conn: &Connection, sql: &str, args: &Vec<Option<String>>) -> (r: Change) {
    match run_execute(conn, sql, args) {
        Ok(n) => Ok(n),
        Err(e) => Err(e.to_string()),
    }
}

/// One query: its rows, or the engine's message.
fn query(conn: &Connection, sql: &str, args: &Vec<Option<String>>, width: usize) -> (r: Answer)
    ensures
        r matches Ok(rows) ==> forall|i: int|
            0 <= i < rows@.len() ==> (#[trigger] rows@[i])@.len() == width,
{
    match run_query(conn, sql, args, width) {
        Ok(rows) => Ok(rows),
        Err(e) => Err(e.to_string()),
    }
}

fn no_args() -> (r: Vec<Option<String>>)
    ensures
        r@.len() == 0,
{
    Vec::new()
}

fn one_arg(a: &str) -> (r: Vec<Option<String>>)
    ensures
        r@.len() == 1,
        r@[0] matches Some(s) && s@ == a@,
{
    let mut args: Vec<Option<String>> = Vec::new();
    args.push(Some(a.to_owned()));
    args
}

fn two_args(a: &str, b: &str) -> (r: Vec<Option<String>>)
    ensures
        r@.len() == 2,
        r@[0] matches Some(s) && s@ == a@,
        r@[1] matches Some(s) && s@ == b@,
{
    let mut args: Vec<Option<String>> = Vec::new();
    args.push(Some(a.to_owned()));
    args.push(Some(b.to_owned()));
    args
}

impl DbPool {
    /// A pool on the database file at `path`.
    pub fn file(path: &str) -> (r: Result<DbPool, RepositoryError>)
        ensures
            r matches Err(e) ==> e@ is Internal,
    {
        match pool_open(path) {
            Ok(pool) => Ok(pool),
            Err(e) => Err(RepositoryError::Internal(e.to_string())),
        }
    }

    /// A connection from the pool; `Internal` where the pool cannot produce
    /// one within its bounds.
    pub fn acquire(&self) -> (r: Result<PooledDb, RepositoryError>)
        ensures
            r matches Err(e) ==> e@ is Internal,
    {
        match pool_get(self) {
            Ok(held) => Ok(held),
            Err(e) => Err(RepositoryError::Internal(e.to_string())),
        }
    }
}

impl PooledDb {
    /// The connection itself.
    pub fn connection(&self) -> &Connection {
        pooled_connection(self)
    }
}

/// Opens a unit of work.
fn begin(conn: &Connection) -> (r: Result<(), RepositoryError>)
    ensures
        r matches Err(e) ==> e@ is Database,
{
    written(execute(conn, BEGIN, &no_args()))
}

/// Closes a unit of work: keeps what it wrote where it succeeded and the
/// engine accepts that, and takes all of it back otherwise.
fn settle(conn: &Connection, outcome: Result<(), RepositoryError>) -> (r: Result<
    (),
    RepositoryError,
>)
    ensures
        outcome matches Err(e) ==> (r matches Err(f) && f@ == e@),
        r matches Err(e) ==> e@ is Database || (outcome matches Err(f) && f@ == e@),
{
    match outcome {
        Ok(()) => match written(execute(conn, COMMIT, &no_args())) {
            Ok(()) => Ok(()),
            Err(e) => {
                let _ = execute(conn, ROLLBACK, &no_args());
                Err(e)
            },
        },
        Err(e) => {
            let _ = execute(conn, ROLLBACK, &no_args());
            Err(e)
        },
    }
}

/// The tags that the task is marked with.
fn tags_of_task(conn: &Connection, task_id: &str) -> (r: Result<Vec<Tag>, RepositoryError>)
    ensures
        r matches Err(e) ==> e@ is Database,
{
    listed_tags(query(conn, SELECT_TASK_TAGS, &one_arg(task_id), 2))
}

/// Runs one step: its statement with its arguments, and the answer read as
/// the step asks.
fn run_step(conn: &Connection, step: &Step) -> (r: Result<(), RepositoryError>)
    ensures
        r matches Err(e) ==> step@.may_fail_with(e@),
{
    let sql = step.sql();
    let args = step.args();
    match step.missing() {
        None => written(execute(conn, sql, &args)),
        Some(missing) => match step.reading() {
            Reading::Present => present(query(conn, sql, &args, 1), missing),
            Reading::Changed => changed(execute(conn, sql, &args), missing),
            Reading::Written => written(execute(conn, sql, &args)),
        },
    }
}

/// Whether a failure is one that a step of the plan may end in.
pub open spec fn plan_fault(plan: Seq<StepView>, e: RepositoryErrorView) -> bool {
    exists|k: int| 0 <= k < plan.len() && (#[trigger] plan[k]).may_fail_with(e)
}

/// Whether an outcome is one that running the plan may have: success, a
/// failure of the pool, or a failure that a step of the plan may end in.
pub open spec fn plan_outcome(plan: Seq<StepView>, outcome: Result<(), RepositoryErrorView>) -> bool {
    outcome matches Err(e) ==> e is Internal || e is Database || plan_fault(plan, e)
}

/// Runs the steps of the plan in order, up to the first that fails. A plan
/// without steps asks nothing of the engine, and succeeds.
fn run_plan(conn: &Connection, plan: &Vec<Step>) -> (r: Result<(), RepositoryError>)
    ensures
        plan@.len() == 0 ==> r is Ok,
        r matches Err(e) ==> plan_fault(step_views(plan@), e@),
{
    let mut i: usize = 0;
    while i < plan.len()
        invariant
            i <= plan.len(),
        decreases plan.len() - i,
    {
        match run_step(conn, &plan[i]) {
            Ok(()) => {},
            Err(e) => {
                assert(step_views(plan@)[i as int] == plan@[i as int]@);
                return Err(e);
            },
        }
        i += 1;
    }
    Ok(())
}

/// Runs the steps of the plan as one unit of work: all of them are kept, or
/// none.
fn run_unit(conn: &Connection, plan: &Vec<Step>) -> (r: Result<(), RepositoryError>)
    ensures
        r matches Err(e) ==> e@ is Database || plan_fault(step_views(plan@), e@),
{
    begin(conn)?;
    settle(conn, run_plan(conn, plan))
}

/// Fills in the tags of every task of `tasks`: every other field of every
/// task stays as it is. With no task there is nothing to ask, and the list
/// comes back.
fn attach_tags(conn: &Connection, tasks: Vec<Task>) -> (r: Result<Vec<Task>, RepositoryError>)
    ensures
        tasks@.len() == 0 ==> r is Ok,
        r matches Err(e) ==> e@ is Database,
        r matches Ok(filled) ==> filled@.len() == tasks@.len() && forall|k: int|
            0 <= k < filled@.len() ==> row_of((#[trigger] filled@[k])@) == row_of(tasks@[k]@),
{
    let ghost given = tasks@;
    let mut filled = tasks;
    let mut i: usize = 0;
    while i < filled.len()
        invariant
            i <= filled.len(),
            given == tasks@,
            filled@.len() == given.len(),
            forall|k: int|
                0 <= k < filled@.len() ==> row_of((#[trigger] filled@[k])@) == row_of(given[k]@),
        decreases filled.len() - i,
    {
        let task = tagged(
            filled[i].clone(),
            query(conn, SELECT_TASK_TAGS, &one_arg(filled[i].id.as_str()), 2),
        )?;
        filled.set(i, task);
        i += 1;
    }
    Ok(filled)
}

/// The repository on a pool of SQLite connections.
pub struct SqliteRepository {
    pool: Arc<DbPool>,
}

impl SqliteRepository {
    /// The pool that the repository draws its connections from.
    pub closed spec fn pool(&self) -> Arc<DbPool> {
        self.pool
    }

    /// A repository that draws its connections from `pool`.
    pub fn new(pool: Arc<DbPool>) -> (r: Self)
        ensures
            r.pool() == pool,
    {
        SqliteRepository { pool }
    }

    /// Creates the four tables where they are absent. Safe to run at every
    /// start.
    pub fn init_db(conn: &Connection) -> (r: Result<(), RepositoryError>)
        ensures
            r matches Err(e) ==> e@ is Database,
    {
        written(execute(conn, CREATE_USERS, &no_args()))?;
        written(execute(conn, CREATE_TAGS, &no_args()))?;
        written(execute(conn, CREATE_TASKS, &no_args()))?;
        written(execute(conn, CREATE_TASK_TAGS, &no_args()))
    }
}

/// Whether an answer is no `NotFound`.
pub open spec fn never_missing<T>(answer: Result<T, RepositoryErrorView>) -> bool {
    answer matches Err(e) ==> !(e is NotFound)
}

/// Whether an answer is no `NotFound` but the one with the message.
pub open spec fn missing_only<T>(answer: Result<T, RepositoryErrorView>, message: Seq<char>) -> bool {
    answer matches Err(e) ==> (e is NotFound ==> e == RepositoryErrorView::NotFound(message))
}

/// What the repository on SQLite may answer is decided by the database. What
/// holds of every answer: a `NotFound` names what was asked for, a write of
/// a task fails only as a step of its plan may, and the repository keeps its
/// pool.
impl Repository for SqliteRepository {
    open spec fn lists_users(&self, answer: Result<Seq<UserView>, RepositoryErrorView>) -> bool {
        never_missing(answer)
    }

    open spec fn finds_user(
        &self,
        id: Seq<char>,
        answer: Result<UserView, RepositoryErrorView>,
    ) -> bool {
        missing_only(answer, user_not_found(id))
    }

    open spec fn creates_user(
        &self,
        user: UserView,
        after: &Self,
        outcome: Result<(), RepositoryErrorView>,
    ) -> bool {
        after.pool() == self.pool() && never_missing(outcome)
    }

    open spec fn updates_user(
        &self,
        user: UserView,
        after: &Self,
        outcome: Result<(), RepositoryErrorView>,
    ) -> bool {
        after.pool() == self.pool() && missing_only(outcome, user_not_found(user.id))
    }

    open spec fn deletes_user(
        &self,
        id: Seq<char>,
        after: &Self,
        outcome: Result<(), RepositoryErrorView>,
    ) -> bool {
        after.pool() == self.pool() && missing_only(outcome, user_not_found(id))
    }

    open spec fn lists_tasks(&self, answer: Result<Seq<TaskView>, RepositoryErrorView>) -> bool {
        never_missing(answer)
    }

    open spec fn finds_task(
        &self,
        id: Seq<char>,
        answer: Result<TaskView, RepositoryErrorView>,
    ) -> bool {
        missing_only(answer, task_not_found(id))
    }

    open spec fn creates_task(
        &self,
        task: TaskView,
        after: &Self,
        outcome: Result<(), RepositoryErrorView>,
    ) -> bool {
        after.pool() == self.pool() && plan_outcome(create_task_steps(task), outcome)
    }

    open spec fn updates_task(
        &self,
        task: TaskView,
        after: &Self,
        outcome: Result<(), RepositoryErrorView>,
    ) -> bool {
        after.pool() == self.pool() && plan_outcome(update_task_steps(task), outcome)
    }

    open spec fn deletes_task(
        &self,
        id: Seq<char>,
        after: &Self,
        outcome: Result<(), RepositoryErrorView>,
    ) -> bool {
        after.pool() == self.pool() && plan_outcome(delete_task_steps(id), outcome)
    }

    open spec fn lists_tags(&self, answer: Result<Seq<TagView>, RepositoryErrorView>) -> bool {
        never_missing(answer)
    }

    open spec fn finds_tag(
        &self,
        id: Seq<char>,
        answer: Result<TagView, RepositoryErrorView>,
    ) -> bool {
        missing_only(answer, tag_not_found(id))
    }

    open spec fn creates_tag(
        &self,
        tag: TagView,
        after: &Self,
        outcome: Result<(), RepositoryErrorView>,
    ) -> bool {
        after.pool() == self.pool() && never_missing(outcome)
    }

    open spec fn lists_tags_of(
        &self,
        task_id: Seq<char>,
        answer: Result<Seq<TagView>, RepositoryErrorView>,
    ) -> bool {
        never_missing(answer)
    }

    open spec fn adds_tag(
        &self,
        task_id: Seq<char>,
        tag_id: Seq<char>,
        after: &Self,
        outcome: Result<(), RepositoryErrorView>,
    ) -> bool {
        after.pool() == self.pool() && plan_outcome(add_tag_steps(task_id, tag_id), outcome)
    }

    open spec fn removes_tag(
        &self,
        task_id: Seq<char>,
        tag_id: Seq<char>,
        after: &Self,
        outcome: Result<(), RepositoryErrorView>,
    ) -> bool {
        after.pool() == self.pool() && missing_only(outcome, link_not_found(task_id, tag_id))
    }

    fn get_users(&self) -> (r: Result<Vec<User>, RepositoryError>) {
        let held = self.pool.acquire()?;
        listed_users(query(held.connection(), SELECT_USERS, &no_args(), 4))
    }

    fn get_user_by_id(&self, id: &str) -> (r: Result<User, RepositoryError>) {
        let held = self.pool.acquire()?;
        found_user(query(held.connection(), SELECT_USER, &one_arg(id), 4), id)
    }

    fn create_user(&mut self, user: &User) -> (r: Result<(), RepositoryError>) {
        let held = self.pool.acquire()?;
        written(execute(held.connection(), INSERT_USER, &encode_user(user)))
    }

    fn update_user(&mut self, user: &User) -> (r: Result<(), RepositoryError>) {
        let held = self.pool.acquire()?;
        changed(
            execute(held.connection(), UPDATE_USER, &encode_user_update(user)),
            RepositoryError::user_not_found(user.id.as_str()),
        )
    }

    fn delete_user(&mut self, id: &str) -> (r: Result<(), RepositoryError>) {
        let held = self.pool.acquire()?;
        changed(
            execute(held.connection(), DELETE_USER, &one_arg(id)),
            RepositoryError::user_not_found(id),
        )
    }

    fn get_tasks(&self) -> (r: Result<Vec<Task>, RepositoryError>) {
        let held = self.pool.acquire()?;
        let conn = held.connection();
        let tasks = listed_tasks(query(conn, SELECT_TASKS, &no_args(), 10))?;
        attach_tags(conn, tasks)
    }

    fn get_task_by_id(&self, id: &str) -> (r: Result<Task, RepositoryError>) {
        let held = self.pool.acquire()?;
        let conn = held.connection();
        let task = found_task(query(conn, SELECT_TASK, &one_arg(id), 10), id)?;
        tagged(task, query(conn, SELECT_TASK_TAGS, &one_arg(id), 2))
    }

    fn create_task(&mut self, task: &Task) -> (r: Result<(), RepositoryError>) {
        let plan = create_task_plan(task);
        let held = self.pool.acquire()?;
        let r = run_unit(held.connection(), &plan);
        proof {
            if let Err(e) = &r {
                if e@ is NotFound {
                    let k = choose|k: int|
                        0 <= k < create_task_steps(task@).len() && (#[trigger] create_task_steps(
                            task@,
                        )[k]).may_fail_with(e@);
                    lemma_create_task_faults(task@, k, e@);
                }
            }
        }
        r
    }

    fn update_task(&mut self, task: &Task) -> (r: Result<(), RepositoryError>) {
        let plan = update_task_plan(task);
        let held = self.pool.acquire()?;
        let r = run_unit(held.connection(), &plan);
        proof {
            if let Err(e) = &r {
                if e@ is NotFound {
                    let k = choose|k: int|
                        0 <= k < update_task_steps(task@).len() && (#[trigger] update_task_steps(
                            task@,
                        )[k]).may_fail_with(e@);
                    lemma_update_task_faults(task@, k, e@);
                }
            }
        }
        r
    }

    fn delete_task(&mut self, id: &str) -> (r: Result<(), RepositoryError>) {
        let plan = delete_task_plan(id);
        let held = self.pool.acquire()?;
        let r = run_unit(held.connection(), &plan);
        proof {
            if let Err(e) = &r {
                if e@ is NotFound {
                    let k = choose|k: int|
                        0 <= k < delete_task_steps(id@).len() && (#[trigger] delete_task_steps(
                            id@,
                        )[k]).may_fail_with(e@);
                }
            }
        }
        r
    }

    fn get_tags(&self) -> (r: Result<Vec<Tag>, RepositoryError>) {
        let held = self.pool.acquire()?;
        listed_tags(query(held.connection(), SELECT_TAGS, &no_args(), 2))
    }

    fn get_tag_by_id(&self, id: &str) -> (r: Result<Tag, RepositoryError>) {
        let held = self.pool.acquire()?;
        found_tag(query(held.connection(), SELECT_TAG, &one_arg(id), 2), id)
    }

    fn create_tag(&mut self, tag: &Tag) -> (r: Result<(), RepositoryError>) {
        let held = self.pool.acquire()?;
        written(execute(held.connection(), INSERT_TAG, &encode_tag(tag)))
    }

    fn get_tags_for_task(&self, task_id: &str) -> (r: Result<Vec<Tag>, RepositoryError>) {
        let held = self.pool.acquire()?;
        tags_of_task(held.connection(), task_id)
    }

    fn add_tag_to_task(&mut self, task_id: &str, tag_id: &str) -> (r: Result<
        (),
        RepositoryError,
    >) {
        let plan = add_tag_plan(task_id, tag_id);
        let held = self.pool.acquire()?;
        let r = run_plan(held.connection(), &plan);
        proof {
            if let Err(e) = &r {
                if e@ is NotFound {
                    let k = choose|k: int|
                        0 <= k < add_tag_steps(task_id@, tag_id@).len() && (#[trigger] add_tag_steps(
                            task_id@,
                            tag_id@,
                        )[k]).may_fail_with(e@);
                }
            }
        }
        r
    }

    fn remove_tag_from_task(&mut self, task_id: &str, tag_id: &str) -> (r: Result<
        (),
        RepositoryError,
    >) {
        let held = self.pool.acquire()?;
        changed(
            execute(held.connection(), DELETE_TASK_TAG, &two_args(task_id, tag_id)),
            RepositoryError::link_not_found(task_id, tag_id),
        )
    }
}

} // verus!
