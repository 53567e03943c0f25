use task_tracker::db::memory::MemoryRepository;
use task_tracker::db::repository::Repository;
use task_tracker::db::RepositoryError;
use task_tracker::models::tag::Tag;
use task_tracker::models::task::{Task, TaskPriority, TaskStatus};
use task_tracker::models::timestamp::Timestamp;
use task_tracker::models::user::{User, UserRole};

fn user(id: &str, email: &str, role: UserRole) -> User {
    User { id: id.to_string(), name: format!("name of {}", id), email: email.to_string(), role }
}

fn tag(id: &str, name: &str) -> Tag {
    Tag { id: id.to_string(), name: name.to_string() }
}

fn task(id: &str, tags: Vec<Tag>) -> Task {
    Task {
        id: id.to_string(),
        title: format!("title of {}", id),
        description: "description".to_string(),
        status: TaskStatus::New,
        priority: TaskPriority::High,
        customer_id: "a".to_string(),
        executor_id: "b".to_string(),
        created_at: Timestamp::new(1_700_000_000, 5).expect("in range"),
        due_date: Some(Timestamp::new(1_800_000_000, 0).expect("in range")),
        completed_at: None,
        tags,
    }
}

fn seeded() -> MemoryRepository {
    let mut repo = MemoryRepository::new();
    repo.create_user(&user("a", "a@example.com", UserRole::Customer)).expect("a");
    repo.create_user(&user("b", "b@example.com", UserRole::Executor)).expect("b");
    repo.create_tag(&tag("g1", "urgent")).expect("g1");
    repo.create_tag(&tag("g2", "billing")).expect("g2");
    repo.create_tag(&tag("g3", "later")).expect("g3");
    repo
}

fn sorted_ids(tags: &[Tag]) -> Vec<String> {
    let mut ids: Vec<String> = tags.iter().map(|t| t.id.clone()).collect();
    ids.sort();
    ids
}

fn not_found<T: std::fmt::Debug>(r: Result<T, RepositoryError>) -> String {
    match r {
        Err(RepositoryError::NotFound(m)) => m,
        other => panic!("expected not found, got {:?}", other),
    }
}

fn database<T: std::fmt::Debug>(r: Result<T, RepositoryError>) -> String {
    match r {
        Err(RepositoryError::Database(m)) => m,
        other => panic!("expected a database error, got {:?}", other),
    }
}

#[test]
fn memory_starts_empty() {
    let repo = MemoryRepository::new();
    assert!(repo.get_users().expect("users").is_empty());
    assert!(repo.get_tasks().expect("tasks").is_empty());
    assert!(repo.get_tags().expect("tags").is_empty());
    assert!(repo.get_tags_for_task("t").expect("none").is_empty());
}

#[test]
fn memory_user_is_read_back() {
    let repo = seeded();
    let a = repo.get_user_by_id("a").expect("a");
    assert_eq!(a.id, "a");
    assert_eq!(a.name, "name of a");
    assert_eq!(a.email, "a@example.com");
    assert_eq!(a.role, UserRole::Customer);
    let all = repo.get_users().expect("all");
    assert_eq!(all.len(), 2);
    assert_eq!(all[0].id, "a");
    assert_eq!(all[1].id, "b");
    assert_eq!(not_found(repo.get_user_by_id("z")), "User with id z not found");
}

#[test]
fn memory_user_constraints() {
    let mut repo = seeded();
    assert_eq!(
        database(repo.create_user(&user("a", "other@example.com", UserRole::Customer))),
        "UNIQUE constraint failed: users.id"
    );
    assert_eq!(
        database(repo.create_user(&user("c", "a@example.com", UserRole::Customer))),
        "UNIQUE constraint failed: users.email"
    );
    assert_eq!(
        database(repo.update_user(&user("b", "a@example.com", UserRole::Executor))),
        "UNIQUE constraint failed: users.email"
    );
    assert_eq!(repo.get_users().expect("all").len(), 2);
    assert_eq!(repo.get_user_by_id("b").expect("b").email, "b@example.com");
}

#[test]
fn memory_user_is_updated_and_deleted() {
    let mut repo = seeded();
    let mut b = user("b", "b@example.com", UserRole::Customer);
    b.name = "renamed".to_string();
    repo.update_user(&b).expect("same email is fine");
    let back = repo.get_user_by_id("b").expect("b");
    assert_eq!(back.name, "renamed");
    assert_eq!(back.role, UserRole::Customer);
    repo.delete_user("a").expect("delete");
    assert_eq!(not_found(repo.get_user_by_id("a")), "User with id a not found");
    assert_eq!(repo.get_users().expect("all").len(), 1);
}

#[test]
fn memory_missing_targets_are_not_found_and_change_nothing() {
    let mut repo = seeded();
    repo.create_task(&task("t1", vec![tag("g1", "urgent")])).expect("create");
    assert_eq!(
        not_found(repo.update_user(&user("z", "z@example.com", UserRole::Customer))),
        "User with id z not found"
    );
    assert_eq!(not_found(repo.delete_user("z")), "User with id z not found");
    assert_eq!(not_found(repo.update_task(&task("t9", Vec::new()))), "Task with id t9 not found");
    assert_eq!(not_found(repo.delete_task("t9")), "Task with id t9 not found");
    assert_eq!(repo.get_users().expect("users").len(), 2);
    assert_eq!(repo.get_tasks().expect("tasks").len(), 1);
    assert_eq!(repo.get_tags().expect("tags").len(), 3);
    assert_eq!(sorted_ids(&repo.get_tags_for_task("t1").expect("tags")), vec!["g1"]);
}

#[test]
fn memory_created_task_is_read_back() {
    let mut repo = seeded();
    let given = task("t1", vec![tag("g2", "billing"), tag("g1", "urgent")]);
    repo.create_task(&given).expect("create");
    let got = repo.get_task_by_id("t1").expect("get");
    assert_eq!(got.id, given.id);
    assert_eq!(got.title, given.title);
    assert_eq!(got.description, given.description);
    assert_eq!(got.status, given.status);
    assert_eq!(got.priority, given.priority);
    assert_eq!(got.customer_id, given.customer_id);
    assert_eq!(got.executor_id, given.executor_id);
    assert_eq!(got.created_at, given.created_at);
    assert_eq!(got.due_date, given.due_date);
    assert_eq!(got.completed_at, given.completed_at);
    assert_eq!(sorted_ids(&got.tags), vec!["g1", "g2"]);
    assert!(got.tags.contains(&tag("g1", "urgent")));
    assert!(got.tags.contains(&tag("g2", "billing")));
    let all = repo.get_tasks().expect("all");
    assert_eq!(all.len(), 1);
    assert_eq!(sorted_ids(&all[0].tags), vec!["g1", "g2"]);
}

#[test]
fn memory_task_with_a_tag_twice_is_marked_once() {
    let mut repo = seeded();
    repo.create_task(&task("t1", vec![tag("g1", "urgent"), tag("g1", "urgent")])).expect("create");
    assert_eq!(sorted_ids(&repo.get_tags_for_task("t1").expect("tags")), vec!["g1"]);
}

#[test]
fn memory_create_task_checks_what_it_refers_to() {
    let mut repo = seeded();
    let mut no_customer = task("t1", Vec::new());
    no_customer.customer_id = "z".to_string();
    assert_eq!(not_found(repo.create_task(&no_customer)), "User with id z not found");
    let mut no_executor = task("t1", Vec::new());
    no_executor.executor_id = "y".to_string();
    assert_eq!(not_found(repo.create_task(&no_executor)), "User with id y not found");
    let no_tag = task("t1", vec![tag("g1", "urgent"), tag("g9", "nowhere")]);
    assert_eq!(not_found(repo.create_task(&no_tag)), "Tag with id g9 not found");
    assert!(repo.get_tasks().expect("tasks").is_empty());
    assert!(repo.get_tags_for_task("t1").expect("tags").is_empty());
    repo.create_task(&task("t1", Vec::new())).expect("create");
    assert_eq!(
        database(repo.create_task(&task("t1", Vec::new()))),
        "UNIQUE constraint failed: tasks.id"
    );
}

#[test]
fn memory_update_replaces_the_tags() {
    let mut repo = seeded();
    repo.create_task(&task("t1", vec![tag("g1", "urgent"), tag("g2", "billing")])).expect("create");
    repo.create_task(&task("t2", vec![tag("g1", "urgent")])).expect("create");
    let mut changed = task("t1", vec![tag("g3", "later"), tag("g2", "billing")]);
    changed.title = "changed".to_string();
    changed.status = TaskStatus::Completed;
    changed.priority = TaskPriority::Low;
    changed.due_date = None;
    changed.completed_at = Some(Timestamp::new(1_750_000_000, 0).expect("in range"));
    changed.created_at = Timestamp::new(1, 0).expect("in range");
    repo.update_task(&changed).expect("update");
    assert_eq!(sorted_ids(&repo.get_tags_for_task("t1").expect("tags")), vec!["g2", "g3"]);
    assert_eq!(sorted_ids(&repo.get_tags_for_task("t2").expect("tags")), vec!["g1"]);
    let got = repo.get_task_by_id("t1").expect("get");
    assert_eq!(got.title, "changed");
    assert_eq!(got.status, TaskStatus::Completed);
    assert_eq!(got.priority, TaskPriority::Low);
    assert_eq!(got.due_date, None);
    assert_eq!(got.completed_at, changed.completed_at);
    assert_eq!(got.created_at, Timestamp::new(1_700_000_000, 5).expect("in range"));
    repo.update_task(&task("t1", Vec::new())).expect("update");
    assert!(repo.get_tags_for_task("t1").expect("tags").is_empty());
}

#[test]
fn memory_failed_update_changes_nothing() {
    let mut repo = seeded();
    repo.create_task(&task("t1", vec![tag("g1", "urgent")])).expect("create");
    let mut bad = task("t1", vec![tag("g2", "billing"), tag("g9", "nowhere")]);
    bad.title = "never written".to_string();
    assert_eq!(not_found(repo.update_task(&bad)), "Tag with id g9 not found");
    let mut no_executor = task("t1", Vec::new());
    no_executor.executor_id = "y".to_string();
    assert_eq!(not_found(repo.update_task(&no_executor)), "User with id y not found");
    let got = repo.get_task_by_id("t1").expect("get");
    assert_eq!(got.title, "title of t1");
    assert_eq!(sorted_ids(&got.tags), vec!["g1"]);
}

#[test]
fn memory_deleted_task_leaves_no_marks() {
    let mut repo = seeded();
    repo.create_task(&task("t1", vec![tag("g1", "urgent"), tag("g2", "billing")])).expect("create");
    repo.create_task(&task("t2", vec![tag("g2", "billing")])).expect("create");
    repo.delete_task("t1").expect("delete");
    assert_eq!(not_found(repo.get_task_by_id("t1")), "Task with id t1 not found");
    assert!(repo.get_tags_for_task("t1").expect("tags").is_empty());
    assert_eq!(sorted_ids(&repo.get_tags_for_task("t2").expect("tags")), vec!["g2"]);
    assert_eq!(repo.get_tags().expect("tags").len(), 3);
    assert_eq!(
        not_found(repo.remove_tag_from_task("t1", "g1")),
        "Relationship between task t1 and tag g1 not found"
    );
    assert_eq!(not_found(repo.delete_task("t1")), "Task with id t1 not found");
}

#[test]
fn memory_tag_name_is_stored_once() {
    let mut repo = seeded();
    assert_eq!(
        database(repo.create_tag(&tag("g7", "urgent"))),
        "UNIQUE constraint failed: tags.name"
    );
    assert_eq!(
        database(repo.create_tag(&tag("g1", "fresh"))),
        "UNIQUE constraint failed: tags.id"
    );
    let tags = repo.get_tags().expect("tags");
    assert_eq!(tags.len(), 3);
    assert_eq!(tags.iter().filter(|t| t.name == "urgent").count(), 1);
    assert_eq!(repo.get_tag_by_id("g1").expect("g1").name, "urgent");
    assert_eq!(not_found(repo.get_tag_by_id("g7")), "Tag with id g7 not found");
}

#[test]
fn memory_adding_a_tag_twice_marks_once() {
    let mut repo = seeded();
    repo.create_task(&task("t1", Vec::new())).expect("create");
    repo.add_tag_to_task("t1", "g1").expect("first");
    repo.add_tag_to_task("t1", "g1").expect("second");
    assert_eq!(sorted_ids(&repo.get_tags_for_task("t1").expect("tags")), vec!["g1"]);
    repo.remove_tag_from_task("t1", "g1").expect("remove");
    assert!(repo.get_tags_for_task("t1").expect("tags").is_empty());
    assert_eq!(
        not_found(repo.remove_tag_from_task("t1", "g1")),
        "Relationship between task t1 and tag g1 not found"
    );
}

#[test]
fn memory_add_tag_needs_task_and_tag() {
    let mut repo = seeded();
    repo.create_task(&task("t1", Vec::new())).expect("create");
    assert_eq!(not_found(repo.add_tag_to_task("t9", "g1")), "Task with id t9 not found");
    assert_eq!(not_found(repo.add_tag_to_task("t1", "g9")), "Tag with id g9 not found");
    assert_eq!(not_found(repo.add_tag_to_task("t9", "g9")), "Task with id t9 not found");
    assert!(repo.get_tags_for_task("t1").expect("tags").is_empty());
}

#[test]
fn memory_deleting_a_user_leaves_tasks() {
    let mut repo = seeded();
    repo.create_task(&task("t1", Vec::new())).expect("create");
    repo.delete_user("a").expect("delete");
    assert_eq!(repo.get_task_by_id("t1").expect("still there").customer_id, "a");
    assert_eq!(not_found(repo.update_task(&task("t1", Vec::new()))), "User with id a not found");
}
