use std::sync::Arc;
use task_tracker::api::error::ApiError;
use task_tracker::api::pages::users_with_role;
use task_tracker::api::tasks::{
    create_tag, create_task, delete_task, find_tag_by_name, get_tags, get_task, get_tasks,
    parse_priority, parse_status, resolve_tag, resolve_tags, stamp_completion, update_task,
    CreateTagRequest,
    CreateTaskRequest, UpdateTaskRequest,
};
use task_tracker::api::users::{
    create_user, delete_user, get_user, get_users, parse_role, update_user, CreateUserRequest,
    UpdateUserRequest,
};
use task_tracker::db::memory::MemoryRepository;
use task_tracker::db::repository::Repository;
use task_tracker::db::sqlite::{DbPool, SqliteRepository};
use task_tracker::db::RepositoryError;
use task_tracker::models::tag::Tag;
use task_tracker::models::task::{TaskPriority, TaskStatus};
use task_tracker::models::timestamp::Timestamp;
use task_tracker::models::user::{User, UserRole};

fn sqlite(name: &str) -> SqliteRepository {
    let path = format!("file:{}?mode=memory&cache=shared", name);
    let pool = DbPool::file(&path).expect("pool");
    {
        let held = pool.acquire().expect("connection");
        SqliteRepository::init_db(held.connection()).expect("schema");
    }
    SqliteRepository::new(Arc::new(pool))
}

fn new_user(name: &str, role: &str) -> CreateUserRequest {
    CreateUserRequest {
        name: name.to_string(),
        email: format!("{}@example.com", name),
        role: role.to_string(),
    }
}

fn new_task(customer: &str, executor: &str, priority: &str, tags: &[&str]) -> CreateTaskRequest {
    CreateTaskRequest {
        title: "T".to_string(),
        description: "what to do".to_string(),
        priority: priority.to_string(),
        customer_id: customer.to_string(),
        executor_id: executor.to_string(),
        due_date: None,
        tags: tags.iter().map(|t| t.to_string()).collect(),
    }
}

fn change(customer: &str, executor: &str, status: &str, tags: &[&str]) -> UpdateTaskRequest {
    UpdateTaskRequest {
        title: "T".to_string(),
        description: "what to do".to_string(),
        status: status.to_string(),
        priority: "high".to_string(),
        customer_id: customer.to_string(),
        executor_id: executor.to_string(),
        due_date: None,
        tags: tags.iter().map(|t| t.to_string()).collect(),
    }
}

fn sorted_names(tags: &[Tag]) -> Vec<String> {
    let mut names: Vec<String> = tags.iter().map(|t| t.name.clone()).collect();
    names.sort();
    names
}

fn bad_request<T: std::fmt::Debug>(r: Result<T, ApiError>) -> String {
    match r {
        Err(ApiError::BadRequest(m)) => m,
        other => panic!("expected a bad request, got {:?}", other),
    }
}

fn not_found<T: std::fmt::Debug>(r: Result<T, ApiError>) -> String {
    match r {
        Err(ApiError::NotFound(m)) => m,
        other => panic!("expected not found, got {:?}", other),
    }
}

fn scenario<R: Repository>(repo: &mut R) {
    let a = create_user(repo, &new_user("A", "customer")).expect("A");
    let b = create_user(repo, &new_user("B", "executor")).expect("B");
    assert_eq!(a.role, UserRole::Customer);
    assert_eq!(b.role, UserRole::Executor);
    assert!(get_tags(repo).expect("tags").is_empty());

    let t = create_task(repo, &new_task(&a.id, &b.id, "high", &["urgent", "billing"]))
        .expect("task");
    assert_eq!(t.priority, TaskPriority::High);
    assert_eq!(t.status, TaskStatus::New);
    assert_eq!(t.customer_id, a.id);
    assert_eq!(t.executor_id, b.id);
    assert_eq!(t.tags.len(), 2);
    assert_eq!(t.tags[0].name, "urgent");
    assert_eq!(t.tags[1].name, "billing");
    assert_eq!(sorted_names(&get_tags(repo).expect("tags")), vec!["billing", "urgent"]);

    let got = get_task(repo, &t.id).expect("get");
    assert_eq!(got.title, "T");
    assert_eq!(sorted_names(&got.tags), vec!["billing", "urgent"]);
    assert!(got.tags.contains(&t.tags[0]));
    assert!(got.tags.contains(&t.tags[1]));
    assert!(!got.is_overdue());
    assert_eq!(got.completed_at, None);

    let done = update_task(repo, &t.id, &change(&a.id, &b.id, "completed", &["urgent", "billing"]))
        .expect("complete");
    assert_eq!(done.status, TaskStatus::Completed);
    let stamped = done.completed_at.expect("stamped");
    assert!(!done.created_at.is_after(&stamped));
    let stored = get_task(repo, &t.id).expect("get");
    assert_eq!(stored.completed_at, Some(stamped));

    let again = update_task(repo, &t.id, &change(&a.id, &b.id, "completed", &["urgent", "billing"]))
        .expect("complete again");
    assert_eq!(again.completed_at, Some(stamped));
    assert_eq!(get_task(repo, &t.id).expect("get").completed_at, Some(stamped));
    assert_eq!(get_tags(repo).expect("tags").len(), 2);
    assert_eq!(get_tasks(repo).expect("tasks").len(), 1);
}

#[test]
fn scenario_in_memory() {
    let mut repo = MemoryRepository::new();
    scenario(&mut repo);
}

#[test]
fn scenario_on_sqlite() {
    let mut repo = sqlite("scenario_on_sqlite");
    scenario(&mut repo);
}

fn tag_names_are_reused<R: Repository>(repo: &mut R) {
    let a = create_user(repo, &new_user("A", "customer")).expect("A");
    let b = create_user(repo, &new_user("B", "executor")).expect("B");
    let urgent = create_tag(repo, &CreateTagRequest { name: "urgent".to_string() }).expect("tag");
    let first = create_task(repo, &new_task(&a.id, &b.id, "low", &["urgent", "new one"]))
        .expect("first");
    assert_eq!(first.tags[0], urgent);
    let second = create_task(repo, &new_task(&a.id, &b.id, "low", &["new one", "urgent"]))
        .expect("second");
    assert_eq!(second.tags[0], first.tags[1]);
    assert_eq!(second.tags[1], urgent);
    let tags = get_tags(repo).expect("tags");
    assert_eq!(sorted_names(&tags), vec!["new one", "urgent"]);
    let changed = update_task(repo, &first.id, &change(&a.id, &b.id, "in_progress", &["urgent"]))
        .expect("update");
    assert_eq!(changed.tags, vec![urgent.clone()]);
    assert_eq!(get_task(repo, &first.id).expect("get").tags, vec![urgent]);
    assert_eq!(get_tags(repo).expect("tags").len(), 2);
}

#[test]
fn tag_names_are_reused_in_memory() {
    let mut repo = MemoryRepository::new();
    tag_names_are_reused(&mut repo);
}

#[test]
fn tag_names_are_reused_on_sqlite() {
    let mut repo = sqlite("tag_names_are_reused_on_sqlite");
    tag_names_are_reused(&mut repo);
}

fn requests_are_checked<R: Repository>(repo: &mut R) {
    assert_eq!(bad_request(create_user(repo, &new_user("X", "boss"))), "Invalid user role");
    assert!(get_users(repo).expect("users").is_empty());
    let a = create_user(repo, &new_user("A", "customer")).expect("A");
    let b = create_user(repo, &new_user("B", "executor")).expect("B");
    assert_eq!(
        bad_request(create_task(repo, &new_task(&a.id, &b.id, "urgent", &["x"]))),
        "Invalid priority"
    );
    assert!(get_tags(repo).expect("tags").is_empty());
    assert_eq!(
        not_found(create_task(repo, &new_task("nobody", &b.id, "low", &[]))),
        "User with id nobody not found"
    );
    assert_eq!(
        not_found(create_task(repo, &new_task(&a.id, "nobody", "low", &[]))),
        "User with id nobody not found"
    );
    let t = create_task(repo, &new_task(&a.id, &b.id, "low", &[])).expect("task");
    assert_eq!(
        bad_request(update_task(repo, &t.id, &change(&a.id, &b.id, "done", &[]))),
        "Invalid status"
    );
    let mut bad_priority = change(&a.id, &b.id, "new", &[]);
    bad_priority.priority = "highest".to_string();
    assert_eq!(bad_request(update_task(repo, &t.id, &bad_priority)), "Invalid priority");
    assert_eq!(
        not_found(update_task(repo, "missing", &change(&a.id, &b.id, "new", &[]))),
        "Task with id missing not found"
    );
    assert_eq!(
        not_found(update_task(repo, &t.id, &change(&a.id, "nobody", "new", &[]))),
        "User with id nobody not found"
    );
    assert_eq!(not_found(get_task(repo, "missing")), "Task with id missing not found");
    assert_eq!(not_found(delete_task(repo, "missing")), "Task with id missing not found");
    assert_eq!(not_found(get_user(repo, "missing")), "User with id missing not found");
    assert_eq!(not_found(delete_user(repo, "missing")), "User with id missing not found");
    let rename = UpdateUserRequest {
        name: "renamed".to_string(),
        email: "new@example.com".to_string(),
        role: "executor".to_string(),
    };
    assert_eq!(not_found(update_user(repo, "missing", &rename)), "User with id missing not found");
    let bad_role = UpdateUserRequest {
        name: "renamed".to_string(),
        email: "new@example.com".to_string(),
        role: "Executor".to_string(),
    };
    assert_eq!(bad_request(update_user(repo, &a.id, &bad_role)), "Invalid user role");
    assert_eq!(get_user(repo, &a.id).expect("a").name, "A");
    let renamed = update_user(repo, &a.id, &rename).expect("rename");
    assert_eq!(renamed.id, a.id);
    assert_eq!(renamed.name, "renamed");
    assert_eq!(renamed.role, UserRole::Executor);
    assert_eq!(get_user(repo, &a.id).expect("a").email, "new@example.com");
    delete_task(repo, &t.id).expect("delete task");
    delete_user(repo, &b.id).expect("delete user");
    assert_eq!(get_users(repo).expect("users").len(), 1);
    assert!(get_tasks(repo).expect("tasks").is_empty());
}

#[test]
fn requests_are_checked_in_memory() {
    let mut repo = MemoryRepository::new();
    requests_are_checked(&mut repo);
}

#[test]
fn requests_are_checked_on_sqlite() {
    let mut repo = sqlite("requests_are_checked_on_sqlite");
    requests_are_checked(&mut repo);
}

#[test]
fn duplicate_email_is_an_internal_failure() {
    let mut repo = MemoryRepository::new();
    create_user(&mut repo, &new_user("A", "customer")).expect("A");
    match create_user(&mut repo, &new_user("A", "executor")) {
        Err(ApiError::Internal(m)) => {
            assert_eq!(m, "Database error: UNIQUE constraint failed: users.email")
        }
        other => panic!("unexpected: {:?}", other),
    }
}

#[test]
fn due_date_is_kept() {
    let mut repo = MemoryRepository::new();
    let a = create_user(&mut repo, &new_user("A", "customer")).expect("A");
    let b = create_user(&mut repo, &new_user("B", "executor")).expect("B");
    let due = Timestamp::new(86_400, 0).expect("in range");
    let mut req = new_task(&a.id, &b.id, "critical", &[]);
    req.due_date = Some(due);
    let t = create_task(&mut repo, &req).expect("task");
    assert_eq!(t.due_date, Some(due));
    assert!(get_task(&repo, &t.id).expect("get").is_overdue());
    let mut later = change(&a.id, &b.id, "cancelled", &[]);
    later.due_date = Some(due);
    let cancelled = update_task(&mut repo, &t.id, &later).expect("cancel");
    assert_eq!(cancelled.status, TaskStatus::Cancelled);
    assert_eq!(cancelled.completed_at, None);
    assert!(!get_task(&repo, &t.id).expect("get").is_overdue());
}

#[test]
fn request_tokens_are_read() {
    assert_eq!(parse_role("customer").expect("role"), UserRole::Customer);
    assert_eq!(parse_role("executor").expect("role"), UserRole::Executor);
    assert_eq!(bad_request(parse_role("")), "Invalid user role");
    assert_eq!(parse_priority("critical").expect("priority"), TaskPriority::Critical);
    assert_eq!(bad_request(parse_priority("Critical")), "Invalid priority");
    assert_eq!(parse_status("in_progress").expect("status"), TaskStatus::InProgress);
    assert_eq!(bad_request(parse_status("inprogress")), "Invalid status");
}

#[test]
fn completion_is_stamped_on_the_move_into_completed() {
    let now = Timestamp::new(2_000, 0).expect("in range");
    let before = Timestamp::new(1_000, 0).expect("in range");
    assert_eq!(stamp_completion(TaskStatus::New, None, TaskStatus::Completed, now), Some(now));
    assert_eq!(
        stamp_completion(TaskStatus::InProgress, Some(before), TaskStatus::Completed, now),
        Some(now)
    );
    assert_eq!(
        stamp_completion(TaskStatus::Completed, Some(before), TaskStatus::Completed, now),
        Some(before)
    );
    assert_eq!(stamp_completion(TaskStatus::Completed, None, TaskStatus::Completed, now), None);
    assert_eq!(
        stamp_completion(TaskStatus::Completed, Some(before), TaskStatus::InProgress, now),
        Some(before)
    );
    assert_eq!(stamp_completion(TaskStatus::New, None, TaskStatus::Cancelled, now), None);
}

#[test]
fn first_tag_with_the_name_is_found() {
    let tags = vec![
        Tag { id: "1".to_string(), name: "a".to_string() },
        Tag { id: "2".to_string(), name: "b".to_string() },
        Tag { id: "3".to_string(), name: "b".to_string() },
    ];
    assert_eq!(find_tag_by_name(&tags, "b"), Some(tags[1].clone()));
    assert_eq!(find_tag_by_name(&tags, "a"), Some(tags[0].clone()));
    assert_eq!(find_tag_by_name(&tags, "c"), None);
    assert_eq!(find_tag_by_name(&Vec::new(), "a"), None);
}

#[test]
fn names_resolve_in_order() {
    let mut repo = MemoryRepository::new();
    let stored = Tag { id: "g1".to_string(), name: "urgent".to_string() };
    repo.create_tag(&stored).expect("tag");
    let names = vec!["new".to_string(), "urgent".to_string(), "new".to_string()];
    let tags = resolve_tags(&mut repo, &names).expect("resolve");
    assert_eq!(tags.len(), 3);
    assert_eq!(tags[0].name, "new");
    assert_eq!(tags[1], stored);
    assert_eq!(tags[2], tags[0]);
    assert_eq!(repo.get_tags().expect("tags").len(), 2);
}

#[test]
fn users_are_split_by_role() {
    let users = vec![
        User { id: "1".to_string(), name: "a".to_string(), email: "a".to_string(), role: UserRole::Customer },
        User { id: "2".to_string(), name: "b".to_string(), email: "b".to_string(), role: UserRole::Executor },
        User { id: "3".to_string(), name: "c".to_string(), email: "c".to_string(), role: UserRole::Customer },
    ];
    let customers = users_with_role(&users, UserRole::Customer);
    assert_eq!(customers.iter().map(|u| u.id.as_str()).collect::<Vec<_>>(), vec!["1", "3"]);
    let executors = users_with_role(&users, UserRole::Executor);
    assert_eq!(executors.iter().map(|u| u.id.as_str()).collect::<Vec<_>>(), vec!["2"]);
    assert!(users_with_role(&Vec::new(), UserRole::Executor).is_empty());
}

#[test]
fn api_errors() {
    let e = ApiError::from(RepositoryError::NotFound("x missing".to_string()));
    assert_eq!(e.status_code(), 404);
    assert_eq!(e.message(), "Not found: x missing");
    let e = ApiError::from(RepositoryError::Database("disk".to_string()));
    assert_eq!(e.status_code(), 500);
    assert_eq!(e.message(), "Internal error: Database error: disk");
    let e = ApiError::from(RepositoryError::Internal("pool".to_string()));
    assert_eq!(e.status_code(), 500);
    assert_eq!(e.message(), "Internal error: pool");
    let e = ApiError::BadRequest("Invalid status".to_string());
    assert_eq!(e.status_code(), 400);
    assert_eq!(e.message(), "Bad request: Invalid status");
}

fn one_name_resolves<R: Repository>(repo: &mut R) {
    let stored = Tag { id: "g1".to_string(), name: "urgent".to_string() };
    repo.create_tag(&stored).expect("tag");
    assert_eq!(resolve_tag(repo, "urgent").expect("reused"), stored);
    assert_eq!(repo.get_tags().expect("tags").len(), 1);
    let fresh = resolve_tag(repo, "billing").expect("created");
    assert_eq!(fresh.name, "billing");
    assert_eq!(fresh.id.len(), 36);
    assert_eq!(repo.get_tag_by_id(&fresh.id).expect("stored"), fresh);
    assert_eq!(resolve_tag(repo, "billing").expect("reused"), fresh);
    assert_eq!(repo.get_tags().expect("tags").len(), 2);
    assert!(resolve_tags(repo, &Vec::new()).expect("none").is_empty());
    assert_eq!(repo.get_tags().expect("tags").len(), 2);
}

#[test]
fn one_name_resolves_in_memory() {
    let mut repo = MemoryRepository::new();
    one_name_resolves(&mut repo);
}

#[test]
fn one_name_resolves_on_sqlite() {
    let mut repo = sqlite("one_name_resolves_on_sqlite");
    one_name_resolves(&mut repo);
}

fn a_repeated_name_is_one_tag_and_one_mark<R: Repository>(repo: &mut R) {
    let a = create_user(repo, &new_user("A", "customer")).expect("A");
    let b = create_user(repo, &new_user("B", "executor")).expect("B");
    let t = create_task(repo, &new_task(&a.id, &b.id, "low", &["a", "a"])).expect("task");
    assert_eq!(t.tags.len(), 2);
    assert_eq!(t.tags[0], t.tags[1]);
    let tags = get_tags(repo).expect("tags");
    assert_eq!(tags.len(), 1);
    assert_eq!(tags[0], t.tags[0]);
    assert_eq!(repo.get_tags_for_task(&t.id).expect("marks"), vec![t.tags[0].clone()]);
    assert_eq!(get_task(repo, &t.id).expect("get").tags, vec![t.tags[0].clone()]);
}

#[test]
fn a_repeated_name_is_one_tag_and_one_mark_in_memory() {
    let mut repo = MemoryRepository::new();
    a_repeated_name_is_one_tag_and_one_mark(&mut repo);
}

#[test]
fn a_repeated_name_is_one_tag_and_one_mark_on_sqlite() {
    let mut repo = sqlite("a_repeated_name_on_sqlite");
    a_repeated_name_is_one_tag_and_one_mark(&mut repo);
}

fn refused_requests_store_nothing<R: Repository>(repo: &mut R) {
    let a = create_user(repo, &new_user("A", "customer")).expect("A");
    let b = create_user(repo, &new_user("B", "executor")).expect("B");
    assert_eq!(
        bad_request(create_task(repo, &new_task(&a.id, &b.id, "urgent", &["x", "y"]))),
        "Invalid priority"
    );
    assert_eq!(
        not_found(create_task(repo, &new_task("nobody", &b.id, "low", &["x"]))),
        "User with id nobody not found"
    );
    assert!(get_tags(repo).expect("tags").is_empty());
    assert!(get_tasks(repo).expect("tasks").is_empty());
    let t = create_task(repo, &new_task(&a.id, &b.id, "low", &["x"])).expect("task");
    assert_eq!(
        bad_request(update_task(repo, &t.id, &change(&a.id, &b.id, "Completed", &["y", "z"]))),
        "Invalid status"
    );
    assert_eq!(
        not_found(update_task(repo, "missing", &change(&a.id, &b.id, "new", &["y"]))),
        "Task with id missing not found"
    );
    assert_eq!(
        not_found(update_task(repo, &t.id, &change("nobody", &b.id, "new", &["y"]))),
        "User with id nobody not found"
    );
    assert_eq!(sorted_names(&get_tags(repo).expect("tags")), vec!["x"]);
    let stored = get_task(repo, &t.id).expect("get");
    assert_eq!(stored.status, TaskStatus::New);
    assert_eq!(sorted_names(&stored.tags), vec!["x"]);
}

#[test]
fn refused_requests_store_nothing_in_memory() {
    let mut repo = MemoryRepository::new();
    refused_requests_store_nothing(&mut repo);
}

#[test]
fn refused_requests_store_nothing_on_sqlite() {
    let mut repo = sqlite("refused_requests_store_nothing_on_sqlite");
    refused_requests_store_nothing(&mut repo);
}

fn update_keeps_what_is_stored<R: Repository>(repo: &mut R) {
    let a = create_user(repo, &new_user("A", "customer")).expect("A");
    let b = create_user(repo, &new_user("B", "executor")).expect("B");
    let t = create_task(repo, &new_task(&a.id, &b.id, "low", &["x"])).expect("task");
    let moved = update_task(repo, &t.id, &change(&a.id, &b.id, "in_progress", &["x", "y"]))
        .expect("update");
    assert_eq!(moved.id, t.id);
    assert_eq!(moved.created_at, t.created_at);
    assert_eq!(moved.completed_at, None);
    assert_eq!(moved.status, TaskStatus::InProgress);
    assert_eq!(moved.priority, TaskPriority::High);
    assert_eq!(moved.tags[0], t.tags[0]);
    let stored = get_task(repo, &t.id).expect("get");
    assert_eq!(stored.created_at, t.created_at);
    assert_eq!(stored.status, TaskStatus::InProgress);
    assert_eq!(sorted_names(&stored.tags), vec!["x", "y"]);
    assert_eq!(get_tags(repo).expect("tags").len(), 2);
}

#[test]
fn update_keeps_what_is_stored_in_memory() {
    let mut repo = MemoryRepository::new();
    update_keeps_what_is_stored(&mut repo);
}

#[test]
fn update_keeps_what_is_stored_on_sqlite() {
    let mut repo = sqlite("update_keeps_what_is_stored_on_sqlite");
    update_keeps_what_is_stored(&mut repo);
}
