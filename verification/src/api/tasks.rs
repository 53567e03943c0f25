//! The operations on tasks and tags that the service offers.

use super::error::{
    done_reply, refused, tag_reply, tags_reply, task_reply, tasks_reply, translated, turned_down,
    ApiError, ApiErrorView,
};
use crate::db::error::{task_not_found, RepositoryErrorView};
use crate::db::laws::{
    lemma_create_tag_wf, lemma_created_task_reads_back, lemma_updated_task_has_its_tags,
};
use crate::db::memory::MemoryRepository;
use crate::db::model::{
    first_at, lemma_position, lemma_position_is, position, row_of, tag_names, task_ids,
    StoreView,
};
use crate::db::repository::{
    outcome_view, tags_answer, task_answer, tasks_answer, user_answer, Repository,
};
use crate::models::ident::ID_LEN;
use crate::models::tag::{Tag, TagView};
use crate::models::task::{instant_of, tag_views, Task, TaskPriority, TaskStatus, TaskView};
use crate::models::timestamp::{Instant, Timestamp};
use crate::models::user::UserView;
use crate::text::same_text;
use vstd::prelude::*;

verus! {

/// What a caller sends to create a task. Tags are given by name.
pub struct CreateTaskRequest {
    pub title: String,
    pub description: String,
    pub priority: String,
    pub customer_id: String,
    pub executor_id: String,
    pub due_date: Option<Timestamp>,
    pub tags: Vec<String>,
}

/// What a caller sends to change a task. Tags are given by name.
pub struct UpdateTaskRequest {
    pub title: String,
    pub description: String,
    pub status: String,
    pub priority: String,
    pub customer_id: String,
    pub executor_id: String,
    pub due_date: Option<Timestamp>,
    pub tags: Vec<String>,
}

/// What a caller sends to create a tag.
pub struct CreateTagRequest {
    pub name: String,
}

/// The complaint about a priority token that stands for no priority.
pub open spec fn invalid_priority() -> ApiErrorView {
    ApiErrorView::BadRequest("Invalid priority"@)
}

/// The complaint about a status token that stands for no status.
pub open spec fn invalid_status() -> ApiErrorView {
    ApiErrorView::BadRequest("Invalid status"@)
}

/// Reads the priority of a request.
pub fn parse_priority(token: &str) -> (r: Result<TaskPriority, ApiError>)
    ensures
        match TaskPriority::of_token(token@) {
            Some(priority) => r == Ok::<TaskPriority, ApiError>(priority),
            None => r matches Err(e) && e@ == invalid_priority(),
        },
{
    match TaskPriority::from_token(token) {
        Some(priority) => Ok(priority),
        None => Err(ApiError::BadRequest("Invalid priority".to_owned())),
    }
}

/// Reads the status of a request.
pub fn parse_status(token: &str) -> (r: Result<TaskStatus, ApiError>)
    ensures
        match TaskStatus::of_token(token@) {
            Some(status) => r == Ok::<TaskStatus, ApiError>(status),
            None => r matches Err(e) && e@ == invalid_status(),
        },
{
    match TaskStatus::from_token(token) {
        Some(status) => Ok(status),
        None => Err(ApiError::BadRequest("Invalid status".to_owned())),
    }
}

/// The first tag of `existing` that has the name.
pub fn find_tag_by_name(existing: &Vec<Tag>, name: &str) -> (r: Option<Tag>)
    ensures
        match position(tag_names(tag_views(existing@)), name@) {
            Some(i) => r matches Some(tag) && tag@ == existing@[i]@ && tag@.name == name@,
            None => r is None,
        },
{
    let ghost keys = tag_names(tag_views(existing@));
    let mut i: usize = 0;
    while i < existing.len()
        invariant
            i <= existing.len(),
            keys == tag_names(tag_views(existing@)),
            forall|j: int| 0 <= j < i ==> keys[j] != name@,
        decreases existing.len() - i,
    {
        if same_text(existing[i].name.as_str(), name) {
            proof {
                assert(first_at(keys, name@, i as int));
                lemma_position_is(keys, name@, i as int);
            }
            return Some(existing[i].clone());
        }
        i += 1;
    }
    None
}

/// When a task was completed, after its status goes from `old_status` to
/// `new_status` at the instant `now`: the instant of the move into
/// `Completed`, and what it was before on every other move.
pub open spec fn completion_after(
    old_status: TaskStatus,
    old_completed: Option<Instant>,
    new_status: TaskStatus,
    now: Instant,
) -> Option<Instant> {
    if new_status == TaskStatus::Completed && old_status != TaskStatus::Completed {
        Some(now)
    } else {
        old_completed
    }
}

/// Stamps the completion of a task whose status changes.
pub fn stamp_completion(
    old_status: TaskStatus,
    old_completed: Option<Timestamp>,
    new_status: TaskStatus,
    now: Timestamp,
) -> (r: Option<Timestamp>)
    ensures
        instant_of(r) == completion_after(old_status, instant_of(old_completed), new_status, now@),
{
    match (new_status, old_status) {
        (TaskStatus::Completed, TaskStatus::Completed) => old_completed,
        (TaskStatus::Completed, _) => Some(now),
        _ => old_completed,
    }
}

/// A task that moves into `Completed` has a completion instant, and a second
/// update that leaves it `Completed` keeps that instant, whatever the clock
/// says then.
pub proof fn lemma_completion_is_stamped_once(
    old_status: TaskStatus,
    old_completed: Option<Instant>,
    first: Instant,
    second: Instant,
)
    requires
        old_status != TaskStatus::Completed,
    ensures
        completion_after(old_status, old_completed, TaskStatus::Completed, first) == Some(first),
        completion_after(
            TaskStatus::Completed,
            completion_after(old_status, old_completed, TaskStatus::Completed, first),
            TaskStatus::Completed,
            second,
        ) == Some(first),
{
}

/// The names of a list of texts, in order.
pub open spec fn texts(names: Seq<String>) -> Seq<Seq<char>> {
    names.map_values(|s: String| s@)
}

/// What comes of storing a new tag: the tag, or the failure translated.
pub open spec fn stored_tag(tag: TagView, outcome: Result<(), RepositoryErrorView>) -> Result<
    TagView,
    ApiErrorView,
> {
    match outcome {
        Ok(()) => Ok(tag),
        Err(f) => Err(ApiErrorView::of_repository(f)),
    }
}

/// Whether resolving `name` may lead from `before` to `after` with the reply,
/// once the repository has listed its tags with `answer`: a failure is handed
/// on and nothing is stored; the first listed tag with the name is reused, and
/// nothing is stored; where no listed tag has the name, a tag with the name
/// and a fresh identifier is handed to the repository to store.
pub open spec fn resolves_from<R: Repository>(
    before: &R,
    answer: Result<Seq<TagView>, RepositoryErrorView>,
    name: Seq<char>,
    after: &R,
    reply: Result<TagView, ApiErrorView>,
) -> bool {
    match answer {
        Err(f) => after == before && reply == Err::<TagView, ApiErrorView>(
            ApiErrorView::of_repository(f),
        ),
        Ok(listed) => match position(tag_names(listed), name) {
            Some(i) => after == before && reply == Ok::<TagView, ApiErrorView>(listed[i]),
            None => exists|tag: TagView, outcome: Result<(), RepositoryErrorView>| #[trigger]
                before.creates_tag(tag, after, outcome) && tag.name == name && tag.id.len()
                    == ID_LEN && reply == stored_tag(tag, outcome),
        },
    }
}

/// Whether resolving `name` may lead from `before` to `after` with the reply.
pub open spec fn resolves<R: Repository>(
    before: &R,
    name: Seq<char>,
    after: &R,
    reply: Result<TagView, ApiErrorView>,
) -> bool {
    exists|answer: Result<Seq<TagView>, RepositoryErrorView>| #[trigger]
        before.lists_tags(answer) && resolves_from(before, answer, name, after, reply)
}

/// On the repository in memory a name that a stored tag carries resolves to
/// that tag, with its identifier, and nothing is stored; a name that no
/// stored tag carries resolves to a new tag, which is stored as one more row,
/// or fails, and nothing is stored.
pub proof fn lemma_stored_name_is_reused(
    before: MemoryRepository,
    name: Seq<char>,
    after: MemoryRepository,
    reply: Result<TagView, ApiErrorView>,
)
    requires
        resolves(&before, name, &after, reply),
    ensures
        match before@.tag_named(name) {
            Some(i) => after == before && reply == Ok::<TagView, ApiErrorView>(before@.tags[i]),
            None => match reply {
                Ok(tag) => tag.name == name && after@ == (StoreView {
                    tags: before@.tags.push(tag),
                    ..before@
                }),
                Err(_) => after@ == before@,
            },
        },
        before@.wf() ==> after@.wf(),
{
    let answer = choose|answer: Result<Seq<TagView>, RepositoryErrorView>| #[trigger]
        before.lists_tags(answer) && resolves_from(&before, answer, name, &after, reply);
    assert(answer == Ok::<Seq<TagView>, RepositoryErrorView>(before@.tags));
    if before@.tag_named(name) is None {
        let (tag, outcome) = choose|tag: TagView, outcome: Result<(), RepositoryErrorView>|
            #[trigger] before.creates_tag(tag, &after, outcome) && tag.name == name
                && tag.id.len() == ID_LEN && reply == stored_tag(tag, outcome);
        if before@.wf() {
            lemma_create_tag_wf(before@, tag);
        }
    }
}

/// On the repository in memory, resolving names keeps the constraints of the
/// store, leaves users, tasks and marks as they are, and stores every tag
/// that it gives.
pub proof fn lemma_resolving_stores_its_tags(
    before: MemoryRepository,
    names: Seq<Seq<char>>,
    after: MemoryRepository,
    tags: Seq<TagView>,
)
    requires
        before@.wf(),
        resolves_all(&before, names, &after, tags),
    ensures
        after@.wf(),
        after@.users == before@.users,
        after@.tasks == before@.tasks,
        after@.links == before@.links,
        forall|i: int| 0 <= i < tags.len() ==> after@.tags.contains(#[trigger] tags[i]),
        forall|i: int| 0 <= i < tags.len() ==> (#[trigger] tags[i]).name == names[i],
{
    let states = choose|states: Seq<MemoryRepository>|
        resolves_along(states, &before, names, &after, tags);
    lemma_resolving_along(states, names, tags, names.len() as int);
}

/// The states of resolving names on the repository in memory, up to place
/// `n`: each keeps the constraints, leaves users, tasks and marks as they are,
/// and holds every tag that was given before it.
pub proof fn lemma_resolving_along(
    states: Seq<MemoryRepository>,
    names: Seq<Seq<char>>,
    tags: Seq<TagView>,
    n: int,
)
    requires
        states.len() == names.len() + 1,
        tags.len() == names.len(),
        states[0]@.wf(),
        0 <= n <= names.len(),
        forall|k: int| 0 <= k < names.len() ==> #[trigger] resolves_at(states, names, tags, k),
    ensures
        states[n]@.wf(),
        states[n]@.users == states[0]@.users,
        states[n]@.tasks == states[0]@.tasks,
        states[n]@.links == states[0]@.links,
        forall|i: int| 0 <= i < n ==> states[n]@.tags.contains(#[trigger] tags[i]),
        forall|i: int| 0 <= i < n ==> (#[trigger] tags[i]).name == names[i],
    decreases n,
{
    if n > 0 {
        lemma_resolving_along(states, names, tags, n - 1);
        let k = n - 1;
        assert(resolves_at(states, names, tags, k));
        lemma_stored_name_is_reused(states[k], names[k], states[n], Ok(tags[k]));
        let old_tags = states[k]@.tags;
        let new_tags = states[n]@.tags;
        match states[k]@.tag_named(names[k]) {
            Some(i) => {
                lemma_position(tag_names(old_tags), names[k]);
                assert(tag_names(old_tags)[i] == old_tags[i].name);
                assert(old_tags.contains(old_tags[i]));
            },
            None => {
                assert(new_tags[old_tags.len() as int] == tags[k]);
                assert forall|i: int| 0 <= i < k implies new_tags.contains(#[trigger] tags[i]) by {
                    let j = choose|j: int| 0 <= j < old_tags.len() && old_tags[j] == tags[i];
                    assert(new_tags[j] == tags[i]);
                }
            },
        }
    }
}

/// On the repository in memory a task that the service created is stored as
/// it came back: it is read back with every field of its row and exactly its
/// tags, whatever their order, and every other task stays.
pub proof fn lemma_created_task_is_stored(
    before: MemoryRepository,
    req: &CreateTaskRequest,
    after: MemoryRepository,
    t: TaskView,
)
    requires
        before@.wf(),
        creates(&before, req, &after, Ok(t)),
    ensures
        after@.wf(),
        after@.tasks.len() == before@.tasks.len() + 1,
        after@.get_task_by_id(t.id) matches Ok(got) && row_of(got) == row_of(t) && got.tags.to_set()
            == t.tags.to_set() && got.tags.no_duplicates(),
        tag_names(t.tags) == texts(req.tags@),
{
    let reply = Ok::<TaskView, ApiErrorView>(t);
    let customer = choose|customer: Result<UserView, RepositoryErrorView>| #[trigger]
        before.finds_user(req.customer_id@, customer) && match customer {
            Err(f) => refused(&before, &after, reply, f),
            Ok(_) => creates_with_customer(&before, req, &after, reply),
        };
    let executor = choose|executor: Result<UserView, RepositoryErrorView>| #[trigger]
        before.finds_user(req.executor_id@, executor) && match executor {
            Err(f) => refused(&before, &after, reply, f),
            Ok(_) => creates_with_people(&before, req, &after, reply),
        };
    let priority = TaskPriority::of_token(req.priority@)->0;
    let (mid, made, outcome) = choose|
        mid: MemoryRepository,
        made: TaskView,
        outcome: Result<(), RepositoryErrorView>,
    | #[trigger]
        mid.creates_task(made, &after, outcome) && resolves_all(
            &before,
            texts(req.tags@),
            &mid,
            made.tags,
        ) && asked_for(req, priority, made) && reply == stored_task(made, outcome);
    assert(made == t && outcome is Ok);
    lemma_resolving_stores_its_tags(before, texts(req.tags@), mid, t.tags);
    lemma_created_task_reads_back(mid@, t);
    assert(tag_names(t.tags) =~= texts(req.tags@));
}


/// The tag that a name stands for: the first tag that the repository lists
/// with the name, and a new tag, stored on the spot, where it lists none.
pub fn resolve_tag<R: Repository>(repo: &mut R, name: &str) -> (r: Result<Tag, ApiError>)
    ensures
        resolves(old(repo), name@, final(repo), tag_reply(r)),
        r matches Ok(tag) ==> tag@.name == name@,
        r matches Err(e) ==> e@ is Internal,
{
    let inner = repo.get_tags();
    let ghost answer = tags_answer(inner);
    let existing = match inner {
        Ok(existing) => existing,
        Err(e) => {
            let r = Err(ApiError::from(e));
            assert(repo.lists_tags(answer) && resolves_from(repo, answer, name@, repo, tag_reply(r)));
            return r;
        },
    };
    match find_tag_by_name(&existing, name) {
        Some(tag) => {
            let r = Ok(tag);
            assert(repo.lists_tags(answer) && resolves_from(repo, answer, name@, repo, tag_reply(r)));
            r
        },
        None => {
            let tag = Tag::new(name.to_owned());
            let stored = repo.create_tag(&tag);
            let ghost outcome = outcome_view(stored);
            let r = match stored {
                Ok(()) => Ok(tag),
                Err(e) => Err(ApiError::from(e)),
            };
            assert(old(repo).creates_tag(tag@, repo, outcome) && tag@.name == name@ && tag@.id.len()
                == ID_LEN && tag_reply(r) == stored_tag(tag@, outcome));
            assert(old(repo).lists_tags(answer) && resolves_from(
                old(repo),
                answer,
                name@,
                repo,
                tag_reply(r),
            ));
            r
        },
    }
}

/// Whether the name at place `k` may be resolved with success from the state
/// at place `k` to the next, and give the tag at place `k`.
pub open spec fn resolves_at<R: Repository>(
    states: Seq<R>,
    names: Seq<Seq<char>>,
    tags: Seq<TagView>,
    k: int,
) -> bool {
    resolves(&states[k], names[k], &states[k + 1], Ok(tags[k]))
}

/// Whether `states` are what the repository is before, between and after the
/// names, where every name is resolved with success and gives its tag.
pub open spec fn resolves_along<R: Repository>(
    states: Seq<R>,
    before: &R,
    names: Seq<Seq<char>>,
    after: &R,
    tags: Seq<TagView>,
) -> bool {
    &&& states.len() == names.len() + 1
    &&& tags.len() == names.len()
    &&& states[0] == *before
    &&& states[names.len() as int] == *after
    &&& forall|k: int| 0 <= k < names.len() ==> #[trigger] resolves_at(states, names, tags, k)
}

/// Whether resolving `names` in order, every one with success, may lead from
/// `before` to `after` and give `tags`.
pub open spec fn resolves_all<R: Repository>(
    before: &R,
    names: Seq<Seq<char>>,
    after: &R,
    tags: Seq<TagView>,
) -> bool {
    exists|states: Seq<R>| resolves_along(states, before, names, after, tags)
}

/// Whether resolving `names` in order may lead from `before` to `after` and
/// stop at the first name that fails, with the failure `e`.
pub open spec fn resolving_fails<R: Repository>(
    before: &R,
    names: Seq<Seq<char>>,
    after: &R,
    e: ApiErrorView,
) -> bool {
    exists|k: int, mid: R, done: Seq<TagView>|
        0 <= k < names.len() && #[trigger] resolves_all(before, names.take(k), &mid, done)
            && resolves(&mid, names[k], after, Err(e))
}

/// The tags that the names stand for, in order: each name is resolved as
/// [`resolve_tag`] does, on what the names before it left stored, up to the
/// first that fails. No name needs no repository, and succeeds.
pub fn resolve_tags<R: Repository>(repo: &mut R, names: &Vec<String>) -> (r: Result<
    Vec<Tag>,
    ApiError,
>)
    ensures
        names@.len() == 0 ==> r is Ok,
        match r {
            Ok(tags) => resolves_all(old(repo), texts(names@), final(repo), tag_views(tags@))
                && tag_names(tag_views(tags@)) == texts(names@),
            Err(e) => e@ is Internal && resolving_fails(
                old(repo),
                texts(names@),
                final(repo),
                e@,
            ),
        },
{
    let ghost wanted = texts(names@);
    let ghost mut states: Seq<R> = seq![*repo];
    let mut tags: Vec<Tag> = Vec::new();
    let mut i: usize = 0;
    while i < names.len()
        invariant
            i <= names.len(),
            wanted == texts(names@),
            tags@.len() == i,
            forall|k: int| 0 <= k < i ==> (#[trigger] tags@[k])@.name == names@[k]@,
            states.len() == i + 1,
            states[0] == *old(repo),
            states[i as int] == *repo,
            forall|k: int|
                0 <= k < i ==> #[trigger] resolves_at(states, wanted, tag_views(tags@), k),
        decreases names.len() - i,
    {
        let ghost mid: R = *repo;
        let ghost done = tag_views(tags@);
        let ghost before = states;
        match resolve_tag(repo, names[i].as_str()) {
            Ok(tag) => {
                let ghost added = tag@;
                tags.push(tag);
                proof {
                    states = states.push(*repo);
                    let now = tag_views(tags@);
                    assert(now =~= done.push(added));
                    assert forall|k: int| 0 <= k < i + 1 implies #[trigger] resolves_at(
                        states,
                        wanted,
                        now,
                        k,
                    ) by {
                        if k < i {
                            assert(resolves_at(before, wanted, done, k));
                            assert(states[k] == before[k] && states[k + 1] == before[k + 1]);
                            assert(now[k] == done[k]);
                        } else {
                            assert(wanted[k] == names@[i as int]@);
                        }
                    }
                }
            },
            Err(e) => {
                proof {
                    let upto = wanted.take(i as int);
                    assert forall|k: int| 0 <= k < upto.len() implies #[trigger] resolves_at(
                        states,
                        upto,
                        done,
                        k,
                    ) by {
                        assert(resolves_at(states, wanted, done, k));
                    }
                    assert(resolves_along(states, old(repo), upto, &mid, done));
                    assert(wanted[i as int] == names@[i as int]@);
                    assert(resolves_all(old(repo), wanted.take(i as int), &mid, done) && resolves(
                        &mid,
                        wanted[i as int],
                        repo,
                        Err(e@),
                    ));
                }
                return Err(e);
            },
        }
        i += 1;
    }
    proof {
        assert(resolves_along(states, old(repo), wanted, repo, tag_views(tags@)));
        assert(tag_names(tag_views(tags@)) =~= texts(names@));
    }
    Ok(tags)
}

/// Every task with its tags: what the repository answers, its failure
/// translated.
pub fn get_tasks<R: Repository>(repo: &R) -> (r: Result<Vec<Task>, ApiError>)
    ensures
        exists|answer: Result<Seq<TaskView>, RepositoryErrorView>| #[trigger]
            repo.lists_tasks(answer) && tasks_reply(r) == translated(answer),
        r matches Err(e) ==> e@ is Internal,
{
    let inner = repo.get_tasks();
    let ghost answer = tasks_answer(inner);
    let r = match inner {
        Ok(tasks) => Ok(tasks),
        Err(e) => Err(ApiError::from(e)),
    };
    assert(repo.lists_tasks(answer) && tasks_reply(r) == translated(answer));
    r
}

/// The task with the identifier `id`, with its tags: what the repository
/// answers, its failure translated.
pub fn get_task<R: Repository>(repo: &R, id: &str) -> (r: Result<Task, ApiError>)
    ensures
        exists|answer: Result<TaskView, RepositoryErrorView>| #[trigger]
            repo.finds_task(id@, answer) && task_reply(r) == translated(answer),
        r matches Err(e) ==> e@ is Internal || e@ == ApiErrorView::NotFound(task_not_found(id@)),
{
    let inner = repo.get_task_by_id(id);
    let ghost answer = task_answer(inner);
    let r = match inner {
        Ok(task) => Ok(task),
        Err(e) => Err(ApiError::from(e)),
    };
    assert(repo.finds_task(id@, answer) && task_reply(r) == translated(answer));
    r
}

/// What comes of storing a task: the task, or the failure translated.
pub open spec fn stored_task(task: TaskView, outcome: Result<(), RepositoryErrorView>) -> Result<
    TaskView,
    ApiErrorView,
> {
    match outcome {
        Ok(()) => Ok(task),
        Err(f) => Err(ApiErrorView::of_repository(f)),
    }
}

/// Whether `t` is the task that a request to create asks for: new, with the
/// fields of the request, a fresh identifier and the instant of the clock.
pub open spec fn asked_for(req: &CreateTaskRequest, priority: TaskPriority, t: TaskView) -> bool {
    &&& t.id.len() == ID_LEN
    &&& t.title == req.title@
    &&& t.description == req.description@
    &&& t.status == TaskStatus::New
    &&& t.priority == priority
    &&& t.customer_id == req.customer_id@
    &&& t.executor_id == req.executor_id@
    &&& t.created_at.on_the_clock()
    &&& t.due_date == instant_of(req.due_date)
    &&& t.completed_at is None
}

/// Whether creating may lead from `before` to `after` with the reply, once
/// customer and executor are found: a priority token that stands for none is
/// turned down and nothing is stored; the tag names are resolved in order, and
/// the first that fails ends the work; then the task that the request asks
/// for, with the tags that the names gave, is handed to the repository to
/// store.
pub open spec fn creates_with_people<R: Repository>(
    before: &R,
    req: &CreateTaskRequest,
    after: &R,
    reply: Result<TaskView, ApiErrorView>,
) -> bool {
    match TaskPriority::of_token(req.priority@) {
        None => turned_down(before, after, reply, invalid_priority()),
        Some(priority) => {
            ||| reply is Err && resolving_fails(before, texts(req.tags@), after, reply->Err_0)
            ||| exists|mid: R, t: TaskView, outcome: Result<(), RepositoryErrorView>| #[trigger]
                mid.creates_task(t, after, outcome) && resolves_all(
                    before,
                    texts(req.tags@),
                    &mid,
                    t.tags,
                ) && asked_for(req, priority, t) && reply == stored_task(t, outcome)
        },
    }
}

/// Whether creating may lead from `before` to `after` with the reply, once
/// the customer is found: a failure to find the executor is handed on.
pub open spec fn creates_with_customer<R: Repository>(
    before: &R,
    req: &CreateTaskRequest,
    after: &R,
    reply: Result<TaskView, ApiErrorView>,
) -> bool {
    exists|executor: Result<UserView, RepositoryErrorView>| #[trigger]
        before.finds_user(req.executor_id@, executor) && match executor {
            Err(f) => refused(before, after, reply, f),
            Ok(_) => creates_with_people(before, req, after, reply),
        }
}

/// Whether creating the task of the request may lead from `before` to `after`
/// with the reply: a failure to find the customer is handed on.
pub open spec fn creates<R: Repository>(
    before: &R,
    req: &CreateTaskRequest,
    after: &R,
    reply: Result<TaskView, ApiErrorView>,
) -> bool {
    exists|customer: Result<UserView, RepositoryErrorView>| #[trigger]
        before.finds_user(req.customer_id@, customer) && match customer {
            Err(f) => refused(before, after, reply, f),
            Ok(_) => creates_with_customer(before, req, after, reply),
        }
}

/// Creates the task of the request under a fresh identifier: checks that
/// customer and executor exist, reads the priority, resolves the tag names,
/// and stores the task with those tags.
pub fn create_task<R: Repository>(repo: &mut R, req: &CreateTaskRequest) -> (r: Result<
    Task,
    ApiError,
>)
    ensures
        creates(old(repo), req, final(repo), task_reply(r)),
        r matches Ok(t) ==> {
            &&& asked_for(req, t@.priority, t@)
            &&& TaskPriority::of_token(req.priority@) == Some(t@.priority)
            &&& tag_names(t@.tags) == texts(req.tags@)
        },
        r matches Err(e) ==> {
            ||| e@ is Internal
            ||| e@ is NotFound
            ||| (e@ == invalid_priority() && TaskPriority::of_token(req.priority@) is None)
        },
        TaskPriority::of_token(req.priority@) is None ==> r is Err && *final(repo) == *old(repo),
{
    let found = repo.get_user_by_id(req.customer_id.as_str());
    let ghost customer = user_answer(found);
    if let Err(e) = found {
        let r = Err(ApiError::from(e));
        assert(repo.finds_user(req.customer_id@, customer) && refused(
            repo,
            repo,
            task_reply(r),
            customer->Err_0,
        ));
        return r;
    }
    let found = repo.get_user_by_id(req.executor_id.as_str());
    let ghost executor = user_answer(found);
    if let Err(e) = found {
        let r = Err(ApiError::from(e));
        assert(repo.finds_user(req.executor_id@, executor) && refused(
            repo,
            repo,
            task_reply(r),
            executor->Err_0,
        ));
        assert(creates_with_customer(repo, req, repo, task_reply(r)));
        assert(repo.finds_user(req.customer_id@, customer) && creates_with_customer(
            repo,
            req,
            repo,
            task_reply(r),
        ));
        return r;
    }
    let priority = match parse_priority(req.priority.as_str()) {
        Ok(priority) => priority,
        Err(e) => {
            let r = Err(e);
            assert(creates_with_people(repo, req, repo, task_reply(r)));
            assert(repo.finds_user(req.executor_id@, executor) && creates_with_people(
                repo,
                req,
                repo,
                task_reply(r),
            ));
            assert(repo.finds_user(req.customer_id@, customer) && creates_with_customer(
                repo,
                req,
                repo,
                task_reply(r),
            ));
            return r;
        },
    };
    let tags = match resolve_tags(repo, &req.tags) {
        Ok(tags) => tags,
        Err(e) => {
            let r = Err(e);
            assert(creates_with_people(old(repo), req, repo, task_reply(r)));
            assert(old(repo).finds_user(req.executor_id@, executor) && creates_with_people(
                old(repo),
                req,
                repo,
                task_reply(r),
            ));
            assert(old(repo).finds_user(req.customer_id@, customer) && creates_with_customer(
                old(repo),
                req,
                repo,
                task_reply(r),
            ));
            return r;
        },
    };
    let ghost mid: R = *repo;
    let task = Task::new(
        req.title.clone(),
        req.description.clone(),
        req.customer_id.clone(),
        req.executor_id.clone(),
        priority,
        req.due_date,
        tags,
    );
    let stored = repo.create_task(&task);
    let ghost outcome = outcome_view(stored);
    let r = match stored {
        Ok(()) => Ok(task),
        Err(e) => Err(ApiError::from(e)),
    };
    proof {
        assert(mid.creates_task(task@, repo, outcome) && resolves_all(
            old(repo),
            texts(req.tags@),
            &mid,
            task@.tags,
        ) && asked_for(req, priority, task@) && task_reply(r) == stored_task(task@, outcome));
        assert(creates_with_people(old(repo), req, repo, task_reply(r)));
        assert(old(repo).finds_user(req.executor_id@, executor) && creates_with_people(
            old(repo),
            req,
            repo,
            task_reply(r),
        ));
        assert(old(repo).finds_user(req.customer_id@, customer) && creates_with_customer(
            old(repo),
            req,
            repo,
            task_reply(r),
        ));
    }
    r
}

/// The task that a request to change makes of the stored one: identifier and
/// creation instant stay, the completion instant is what
/// [`completion_after`] says, and everything else is the request's.
pub open spec fn changed_task(
    stored: TaskView,
    req: &UpdateTaskRequest,
    status: TaskStatus,
    priority: TaskPriority,
    now: Instant,
    tags: Seq<TagView>,
) -> TaskView {
    TaskView {
        id: stored.id,
        title: req.title@,
        description: req.description@,
        status,
        priority,
        customer_id: req.customer_id@,
        executor_id: req.executor_id@,
        created_at: stored.created_at,
        due_date: instant_of(req.due_date),
        completed_at: completion_after(stored.status, stored.completed_at, status, now),
        tags,
    }
}

/// Whether changing may lead from `before` to `after` with the reply, once
/// the task, its customer and its executor are found: a status token that
/// stands for none is turned down, then a priority token that stands for
/// none, and nothing is stored; the tag names are resolved in order, and the
/// first that fails ends the work; then the changed task, stamped at an
/// instant of the clock and with the tags that the names gave, is handed to
/// the repository to store.
pub open spec fn updates_with_people<R: Repository>(
    before: &R,
    stored: TaskView,
    req: &UpdateTaskRequest,
    after: &R,
    reply: Result<TaskView, ApiErrorView>,
) -> bool {
    match TaskStatus::of_token(req.status@) {
        None => turned_down(before, after, reply, invalid_status()),
        Some(status) => match TaskPriority::of_token(req.priority@) {
            None => turned_down(before, after, reply, invalid_priority()),
            Some(priority) => {
                ||| reply is Err && resolving_fails(
                    before,
                    texts(req.tags@),
                    after,
                    reply->Err_0,
                )
                ||| exists|
                    mid: R,
                    t: TaskView,
                    now: Instant,
                    outcome: Result<(), RepositoryErrorView>,
                | #[trigger]
                    mid.updates_task(t, after, outcome) && #[trigger] now.on_the_clock()
                        && resolves_all(before, texts(req.tags@), &mid, t.tags) && t
                        == changed_task(stored, req, status, priority, now, t.tags) && reply
                        == stored_task(t, outcome)
            },
        },
    }
}

/// Whether changing may lead from `before` to `after` with the reply, once
/// the task and its customer are found: a failure to find the executor is
/// handed on.
pub open spec fn updates_with_customer<R: Repository>(
    before: &R,
    stored: TaskView,
    req: &UpdateTaskRequest,
    after: &R,
    reply: Result<TaskView, ApiErrorView>,
) -> bool {
    exists|executor: Result<UserView, RepositoryErrorView>| #[trigger]
        before.finds_user(req.executor_id@, executor) && match executor {
            Err(f) => refused(before, after, reply, f),
            Ok(_) => updates_with_people(before, stored, req, after, reply),
        }
}

/// Whether changing may lead from `before` to `after` with the reply, once
/// the task is found: a failure to find the customer is handed on.
pub open spec fn updates_found<R: Repository>(
    before: &R,
    stored: TaskView,
    req: &UpdateTaskRequest,
    after: &R,
    reply: Result<TaskView, ApiErrorView>,
) -> bool {
    exists|customer: Result<UserView, RepositoryErrorView>| #[trigger]
        before.finds_user(req.customer_id@, customer) && match customer {
            Err(f) => refused(before, after, reply, f),
            Ok(_) => updates_with_customer(before, stored, req, after, reply),
        }
}

/// Whether changing the task `id` as the request says may lead from `before`
/// to `after` with the reply: a failure to find the task is handed on.
pub open spec fn updates<R: Repository>(
    before: &R,
    id: Seq<char>,
    req: &UpdateTaskRequest,
    after: &R,
    reply: Result<TaskView, ApiErrorView>,
) -> bool {
    exists|found: Result<TaskView, RepositoryErrorView>| #[trigger]
        before.finds_task(id, found) && match found {
            Err(f) => refused(before, after, reply, f),
            Ok(stored) => updates_found(before, stored, req, after, reply),
        }
}

/// On the repository in memory a task that the service changed is stored as
/// it came back. Its identifier and creation instant are those of the stored
/// task; its completion instant is the stored one unless the task moves into
/// `Completed`, and then an instant of the clock; a task that was `Completed`
/// and stays so keeps its completion instant. It is read back with every
/// field of its row and exactly its tags, whatever their order.
pub proof fn lemma_changed_task_is_stored(
    before: MemoryRepository,
    id: Seq<char>,
    req: &UpdateTaskRequest,
    after: MemoryRepository,
    t: TaskView,
)
    requires
        before@.wf(),
        updates(&before, id, req, &after, Ok(t)),
    ensures
        after@.wf(),
        before@.get_task_by_id(id) is Ok,
        ({
            let stored = before@.get_task_by_id(id)->Ok_0;
            &&& t.id == id
            &&& t.created_at == stored.created_at
            &&& (t.status != TaskStatus::Completed || stored.status == TaskStatus::Completed)
                ==> t.completed_at == stored.completed_at
            &&& (t.status == TaskStatus::Completed && stored.status != TaskStatus::Completed)
                ==> (t.completed_at is Some && t.completed_at->0.on_the_clock())
        }),
        after@.tasks.len() == before@.tasks.len(),
        after@.get_task_by_id(id) matches Ok(got) && row_of(got) == row_of(t) && got.tags.to_set()
            == t.tags.to_set() && got.tags.no_duplicates(),
        tag_names(t.tags) == texts(req.tags@),
{
    let reply = Ok::<TaskView, ApiErrorView>(t);
    let found = choose|found: Result<TaskView, RepositoryErrorView>| #[trigger]
        before.finds_task(id, found) && match found {
            Err(f) => refused(&before, &after, reply, f),
            Ok(stored) => updates_found(&before, stored, req, &after, reply),
        };
    let stored = found->Ok_0;
    let customer = choose|customer: Result<UserView, RepositoryErrorView>| #[trigger]
        before.finds_user(req.customer_id@, customer) && match customer {
            Err(f) => refused(&before, &after, reply, f),
            Ok(_) => updates_with_customer(&before, stored, req, &after, reply),
        };
    let executor = choose|executor: Result<UserView, RepositoryErrorView>| #[trigger]
        before.finds_user(req.executor_id@, executor) && match executor {
            Err(f) => refused(&before, &after, reply, f),
            Ok(_) => updates_with_people(&before, stored, req, &after, reply),
        };
    let status = TaskStatus::of_token(req.status@)->0;
    let priority = TaskPriority::of_token(req.priority@)->0;
    let (mid, made, now, outcome) = choose|
        mid: MemoryRepository,
        made: TaskView,
        now: Instant,
        outcome: Result<(), RepositoryErrorView>,
    | #[trigger]
        mid.updates_task(made, &after, outcome) && #[trigger] now.on_the_clock() && resolves_all(
            &before,
            texts(req.tags@),
            &mid,
            made.tags,
        ) && made == changed_task(stored, req, status, priority, now, made.tags) && reply
            == stored_task(made, outcome);
    assert(made == t && outcome is Ok);
    lemma_resolving_stores_its_tags(before, texts(req.tags@), mid, t.tags);
    lemma_position(task_ids(before@.tasks), id);
    lemma_updated_task_has_its_tags(mid@, t);
    assert(tag_names(t.tags) =~= texts(req.tags@));
}

/// Changes the task with the identifier `id` as the request says: checks that
/// the task, the customer and the executor exist, reads status and priority,
/// stamps the completion where the task moves into `Completed`, resolves the
/// tag names, and stores the task with exactly those tags.
pub fn update_task<R: Repository>(repo: &mut R, id: &str, req: &UpdateTaskRequest) -> (r: Result<
    Task,
    ApiError,
>)
    ensures
        updates(old(repo), id@, req, final(repo), task_reply(r)),
        r matches Ok(t) ==> {
            &&& t@.title == req.title@
            &&& t@.description == req.description@
            &&& TaskStatus::of_token(req.status@) == Some(t@.status)
            &&& TaskPriority::of_token(req.priority@) == Some(t@.priority)
            &&& t@.customer_id == req.customer_id@
            &&& t@.executor_id == req.executor_id@
            &&& t@.due_date == instant_of(req.due_date)
            &&& tag_names(t@.tags) == texts(req.tags@)
        },
        r matches Err(e) ==> {
            ||| e@ is Internal
            ||| e@ is NotFound
            ||| (e@ == invalid_status() && TaskStatus::of_token(req.status@) is None)
            ||| (e@ == invalid_priority() && TaskPriority::of_token(req.priority@) is None)
        },
        TaskStatus::of_token(req.status@) is None || TaskPriority::of_token(req.priority@) is None
            ==> r is Err && *final(repo) == *old(repo),
{
    let inner = repo.get_task_by_id(id);
    let ghost found = task_answer(inner);
    let mut task = match inner {
        Ok(task) => task,
        Err(e) => {
            let r = Err(ApiError::from(e));
            assert(repo.finds_task(id@, found) && refused(repo, repo, task_reply(r), found->Err_0));
            return r;
        },
    };
    let ghost stored = task@;
    let inner = repo.get_user_by_id(req.customer_id.as_str());
    let ghost customer = user_answer(inner);
    if let Err(e) = inner {
        let r = Err(ApiError::from(e));
        assert(repo.finds_user(req.customer_id@, customer) && refused(
            repo,
            repo,
            task_reply(r),
            customer->Err_0,
        ));
        assert(repo.finds_task(id@, found) && updates_found(repo, stored, req, repo, task_reply(r)));
        return r;
    }
    let inner = repo.get_user_by_id(req.executor_id.as_str());
    let ghost executor = user_answer(inner);
    if let Err(e) = inner {
        let r = Err(ApiError::from(e));
        assert(repo.finds_user(req.executor_id@, executor) && refused(
            repo,
            repo,
            task_reply(r),
            executor->Err_0,
        ));
        assert(repo.finds_user(req.customer_id@, customer) && updates_with_customer(
            repo,
            stored,
            req,
            repo,
            task_reply(r),
        ));
        assert(repo.finds_task(id@, found) && updates_found(repo, stored, req, repo, task_reply(r)));
        return r;
    }
    let status = match parse_status(req.status.as_str()) {
        Ok(status) => status,
        Err(e) => {
            let r = Err(e);
            assert(repo.finds_user(req.executor_id@, executor) && updates_with_people(
                repo,
                stored,
                req,
                repo,
                task_reply(r),
            ));
            assert(repo.finds_user(req.customer_id@, customer) && updates_with_customer(
                repo,
                stored,
                req,
                repo,
                task_reply(r),
            ));
            assert(repo.finds_task(id@, found) && updates_found(
                repo,
                stored,
                req,
                repo,
                task_reply(r),
            ));
            return r;
        },
    };
    let priority = match parse_priority(req.priority.as_str()) {
        Ok(priority) => priority,
        Err(e) => {
            let r = Err(e);
            assert(repo.finds_user(req.executor_id@, executor) && updates_with_people(
                repo,
                stored,
                req,
                repo,
                task_reply(r),
            ));
            assert(repo.finds_user(req.customer_id@, customer) && updates_with_customer(
                repo,
                stored,
                req,
                repo,
                task_reply(r),
            ));
            assert(repo.finds_task(id@, found) && updates_found(
                repo,
                stored,
                req,
                repo,
                task_reply(r),
            ));
            return r;
        },
    };
    let now = Timestamp::now();
    task.title = req.title.clone();
    task.description = req.description.clone();
    task.completed_at = stamp_completion(task.status, task.completed_at, status, now);
    task.status = status;
    task.priority = priority;
    task.customer_id = req.customer_id.clone();
    task.executor_id = req.executor_id.clone();
    task.due_date = req.due_date;
    task.tags = match resolve_tags(repo, &req.tags) {
        Ok(tags) => tags,
        Err(e) => {
            let r = Err(e);
            assert(old(repo).finds_user(req.executor_id@, executor) && updates_with_people(
                old(repo),
                stored,
                req,
                repo,
                task_reply(r),
            ));
            assert(old(repo).finds_user(req.customer_id@, customer) && updates_with_customer(
                old(repo),
                stored,
                req,
                repo,
                task_reply(r),
            ));
            assert(old(repo).finds_task(id@, found) && updates_found(
                old(repo),
                stored,
                req,
                repo,
                task_reply(r),
            ));
            return r;
        },
    };
    let ghost mid: R = *repo;
    let saved = repo.update_task(&task);
    let ghost outcome = outcome_view(saved);
    let r = match saved {
        Ok(()) => Ok(task),
        Err(e) => Err(ApiError::from(e)),
    };
    proof {
        assert(task@ == changed_task(stored, req, status, priority, now@, task@.tags));
        assert(mid.updates_task(task@, repo, outcome) && now@.on_the_clock() && resolves_all(
            old(repo),
            texts(req.tags@),
            &mid,
            task@.tags,
        ) && task@ == changed_task(stored, req, status, priority, now@, task@.tags) && task_reply(r)
            == stored_task(task@, outcome));
        assert(old(repo).finds_user(req.executor_id@, executor) && updates_with_people(
            old(repo),
            stored,
            req,
            repo,
            task_reply(r),
        ));
        assert(old(repo).finds_user(req.customer_id@, customer) && updates_with_customer(
            old(repo),
            stored,
            req,
            repo,
            task_reply(r),
        ));
        assert(old(repo).finds_task(id@, found) && updates_found(
            old(repo),
            stored,
            req,
            repo,
            task_reply(r),
        ));
    }
    r
}

/// Removes the task with the identifier `id`: the repository does, and its
/// outcome comes back with the failure translated.
pub fn delete_task<R: Repository>(repo: &mut R, id: &str) -> (r: Result<(), ApiError>)
    ensures
        exists|outcome: Result<(), RepositoryErrorView>| #[trigger]
            old(repo).deletes_task(id@, final(repo), outcome) && done_reply(r) == translated(
                outcome,
            ),
        r matches Err(e) ==> e@ is Internal || e@ == ApiErrorView::NotFound(task_not_found(id@)),
{
    let inner = repo.delete_task(id);
    let ghost outcome = outcome_view(inner);
    let r = match inner {
        Ok(()) => Ok(()),
        Err(e) => Err(ApiError::from(e)),
    };
    assert(old(repo).deletes_task(id@, repo, outcome) && done_reply(r) == translated(outcome));
    r
}

/// Every tag: what the repository answers, its failure translated.
pub fn get_tags<R: Repository>(repo: &R) -> (r: Result<Vec<Tag>, ApiError>)
    ensures
        exists|answer: Result<Seq<TagView>, RepositoryErrorView>| #[trigger]
            repo.lists_tags(answer) && tags_reply(r) == translated(answer),
        r matches Err(e) ==> e@ is Internal,
{
    let inner = repo.get_tags();
    let ghost answer = tags_answer(inner);
    let r = match inner {
        Ok(tags) => Ok(tags),
        Err(e) => Err(ApiError::from(e)),
    };
    assert(repo.lists_tags(answer) && tags_reply(r) == translated(answer));
    r
}

/// Creates a tag with the name of the request under a fresh identifier: the
/// tag is handed to the repository to store, and comes back, or the failure
/// translated.
pub fn create_tag<R: Repository>(repo: &mut R, req: &CreateTagRequest) -> (r: Result<Tag, ApiError>)
    ensures
        exists|tag: TagView, outcome: Result<(), RepositoryErrorView>| #[trigger]
            old(repo).creates_tag(tag, final(repo), outcome) && tag.name == req.name@
                && tag.id.len() == ID_LEN && tag_reply(r) == stored_tag(tag, outcome),
        r matches Ok(t) ==> t@.name == req.name@ && t@.id.len() == ID_LEN,
        r matches Err(e) ==> e@ is Internal,
{
    let tag = Tag::new(req.name.clone());
    let stored = repo.create_tag(&tag);
    let ghost outcome = outcome_view(stored);
    let r = match stored {
        Ok(()) => Ok(tag),
        Err(e) => Err(ApiError::from(e)),
    };
    assert(old(repo).creates_tag(tag@, repo, outcome) && tag@.name == req.name@ && tag@.id.len()
        == ID_LEN && tag_reply(r) == stored_tag(tag@, outcome));
    r
}

} // verus!
