use task_tracker::models::tag::Tag;
use task_tracker::models::task::{Task, TaskPriority, TaskStatus};
use task_tracker::models::timestamp::{Timestamp, MAX_SECS, MIN_SECS};
use task_tracker::models::user::{User, UserRole};

fn at(secs: i64, nanos: u32) -> Timestamp {
    Timestamp::new(secs, nanos).expect("in range")
}

fn task_due(status: TaskStatus, due: Option<Timestamp>) -> Task {
    let mut task = Task::new(
        "title".to_string(),
        "description".to_string(),
        "c".to_string(),
        "e".to_string(),
        TaskPriority::Medium,
        due,
        Vec::new(),
    );
    task.status = status;
    task
}

#[test]
fn role_tokens_are_fixed() {
    assert_eq!(UserRole::Executor.as_token(), "executor");
    assert_eq!(UserRole::Customer.as_token(), "customer");
    assert_eq!(UserRole::from_token("executor"), Some(UserRole::Executor));
    assert_eq!(UserRole::from_token("customer"), Some(UserRole::Customer));
}

#[test]
fn unknown_role_token_is_refused() {
    assert_eq!(UserRole::from_token("Customer"), None);
    assert_eq!(UserRole::from_token(""), None);
    assert_eq!(UserRole::from_token("admin"), None);
}

#[test]
fn status_tokens_are_fixed() {
    assert_eq!(TaskStatus::New.as_token(), "new");
    assert_eq!(TaskStatus::InProgress.as_token(), "in_progress");
    assert_eq!(TaskStatus::Completed.as_token(), "completed");
    assert_eq!(TaskStatus::Cancelled.as_token(), "cancelled");
}

#[test]
fn status_tokens_read_back() {
    for status in [
        TaskStatus::New,
        TaskStatus::InProgress,
        TaskStatus::Completed,
        TaskStatus::Cancelled,
    ] {
        assert_eq!(TaskStatus::from_token(status.as_token()), Some(status));
    }
}

#[test]
fn unknown_status_token_is_refused() {
    assert_eq!(TaskStatus::from_token("inprogress"), None);
    assert_eq!(TaskStatus::from_token("done"), None);
    assert_eq!(TaskStatus::from_token("NEW"), None);
}

#[test]
fn priority_tokens_are_fixed() {
    assert_eq!(TaskPriority::Low.as_token(), "low");
    assert_eq!(TaskPriority::Medium.as_token(), "medium");
    assert_eq!(TaskPriority::High.as_token(), "high");
    assert_eq!(TaskPriority::Critical.as_token(), "critical");
}

#[test]
fn priority_tokens_read_back() {
    for priority in [
        TaskPriority::Low,
        TaskPriority::Medium,
        TaskPriority::High,
        TaskPriority::Critical,
    ] {
        assert_eq!(TaskPriority::from_token(priority.as_token()), Some(priority));
    }
    assert_eq!(TaskPriority::from_token("urgent"), None);
}

#[test]
fn labels_are_shown_in_russian() {
    assert_eq!(UserRole::Executor.label(), "Исполнитель");
    assert_eq!(UserRole::Customer.label(), "Заказчик");
    assert_eq!(TaskStatus::New.label(), "Новая");
    assert_eq!(TaskStatus::InProgress.label(), "В работе");
    assert_eq!(TaskStatus::Completed.label(), "Завершена");
    assert_eq!(TaskStatus::Cancelled.label(), "Отменена");
    assert_eq!(TaskPriority::Low.label(), "Низкий");
    assert_eq!(TaskPriority::Medium.label(), "Средний");
    assert_eq!(TaskPriority::High.label(), "Высокий");
    assert_eq!(TaskPriority::Critical.label(), "Критический");
}

#[test]
fn timestamp_bounds() {
    assert!(Timestamp::new(MIN_SECS, 0).is_some());
    assert!(Timestamp::new(MAX_SECS, 999_999_999).is_some());
    assert!(Timestamp::new(MIN_SECS - 1, 0).is_none());
    assert!(Timestamp::new(MAX_SECS + 1, 0).is_none());
    assert!(Timestamp::new(0, 1_000_000_000).is_none());
    let t = at(1_431_648_000, 7);
    assert_eq!(t.secs(), 1_431_648_000);
    assert_eq!(t.nanos(), 7);
}

#[test]
fn timestamp_saturates() {
    let low = Timestamp::saturating(i64::MIN, 5);
    assert_eq!((low.secs(), low.nanos()), (MIN_SECS, 5));
    let high = Timestamp::saturating(i64::MAX, 2_000_000_000);
    assert_eq!((high.secs(), high.nanos()), (MAX_SECS, 999_999_999));
    let same = Timestamp::saturating(12, 34);
    assert_eq!((same.secs(), same.nanos()), (12, 34));
}

#[test]
fn timestamp_text_is_rfc3339() {
    assert_eq!(at(1_431_648_000, 0).to_rfc3339(), "2015-05-15T00:00:00+00:00");
    assert_eq!(at(0, 0).to_rfc3339(), "1970-01-01T00:00:00+00:00");
    assert_eq!(at(1_431_648_000, 500_000_000).to_rfc3339(), "2015-05-15T00:00:00.500+00:00");
    assert_eq!(at(MIN_SECS, 0).to_rfc3339(), "0000-01-01T00:00:00+00:00");
    assert_eq!(at(MAX_SECS, 0).to_rfc3339(), "9999-12-31T23:59:59+00:00");
}

#[test]
fn timestamp_text_is_read() {
    let t = Timestamp::parse_rfc3339("1996-12-19T16:39:57-08:00").expect("parses");
    assert_eq!((t.secs(), t.nanos()), (851_042_397, 0));
    let z = Timestamp::parse_rfc3339("2015-05-15T00:00:00.000000001Z").expect("parses");
    assert_eq!((z.secs(), z.nanos()), (1_431_648_000, 1));
}

#[test]
fn timestamp_text_round_trip() {
    for (secs, nanos) in [(0, 0), (1_700_000_000, 123_456_789), (MIN_SECS, 0), (MAX_SECS, 999_999_999), (-1, 1)] {
        let t = at(secs, nanos);
        let back = Timestamp::parse_rfc3339(&t.to_rfc3339()).expect("reads back");
        assert!(back.same(&t));
    }
}

#[test]
fn malformed_timestamp_text_is_refused() {
    assert!(Timestamp::parse_rfc3339("").is_err());
    assert!(Timestamp::parse_rfc3339("yesterday").is_err());
    assert!(Timestamp::parse_rfc3339("2015-05-15 00:00:00").is_err());
    assert!(Timestamp::parse_rfc3339("2015-05-15T00:00:00").is_err());
}

#[test]
fn timestamp_outside_the_calendar_is_refused() {
    assert_eq!(
        Timestamp::parse_rfc3339("9999-12-31T23:59:59-01:00"),
        Err("timestamp out of range".to_string())
    );
    assert_eq!(
        Timestamp::parse_rfc3339("0000-01-01T00:00:00+01:00"),
        Err("timestamp out of range".to_string())
    );
    assert_eq!(
        Timestamp::from_parsed(0, 2_000_000_000).map(|t| t.secs()),
        Err("timestamp out of range".to_string())
    );
    assert_eq!(
        Timestamp::from_parsed(MAX_SECS + 1, 0).map(|t| t.secs()),
        Err("timestamp out of range".to_string())
    );
    assert_eq!(Timestamp::from_parsed(5, 6).map(|t| (t.secs(), t.nanos())), Ok((5, 6)));
}

#[test]
fn timestamps_are_ordered() {
    assert!(at(10, 0).is_after(&at(9, 999_999_999)));
    assert!(at(10, 1).is_after(&at(10, 0)));
    assert!(!at(10, 0).is_after(&at(10, 0)));
    assert!(!at(-5, 0).is_after(&at(-4, 0)));
    assert!(at(10, 0).same(&at(10, 0)));
    assert!(!at(10, 0).same(&at(10, 1)));
}

#[test]
fn whole_days_round_toward_zero() {
    let day = 86_400;
    assert_eq!(at(3 * day, 0).whole_days_since(&at(0, 0)), 3);
    assert_eq!(at(3 * day - 1, 999_999_999).whole_days_since(&at(0, 0)), 2);
    assert_eq!(at(0, 0).whole_days_since(&at(3 * day, 0)), -3);
    assert_eq!(at(0, 0).whole_days_since(&at(3 * day - 1, 0)), -2);
    assert_eq!(at(5, 0).whole_days_since(&at(5, 0)), 0);
    assert_eq!(at(MAX_SECS, 0).whole_days_since(&at(MIN_SECS, 0)), 3_652_424);
}

#[test]
fn the_clock_reads_the_present() {
    let now = Timestamp::now();
    assert!(now.secs() > 1_600_000_000);
    assert!(now.nanos() < 1_000_000_000);
}

#[test]
fn fresh_identifiers_differ() {
    let a = User::new("A".to_string(), "a@example.com".to_string(), UserRole::Customer);
    let b = User::new("B".to_string(), "b@example.com".to_string(), UserRole::Executor);
    assert_eq!(a.id.len(), 36);
    assert_eq!(b.id.len(), 36);
    assert_ne!(a.id, b.id);
    assert_eq!(a.name, "A");
    assert_eq!(a.email, "a@example.com");
    assert_eq!(a.role, UserRole::Customer);
}

#[test]
fn new_tag_keeps_its_name() {
    let tag = Tag::new("urgent".to_string());
    assert_eq!(tag.name, "urgent");
    assert_eq!(tag.id.len(), 36);
    assert!(tag == tag.clone());
    assert!(tag != Tag::new("urgent".to_string()));
}

#[test]
fn new_task_is_new() {
    let due = at(2_000_000_000, 0);
    let tag = Tag::new("x".to_string());
    let task = Task::new(
        "t".to_string(),
        "d".to_string(),
        "c".to_string(),
        "e".to_string(),
        TaskPriority::Critical,
        Some(due),
        vec![tag.clone()],
    );
    assert_eq!(task.id.len(), 36);
    assert_eq!(task.title, "t");
    assert_eq!(task.description, "d");
    assert_eq!(task.customer_id, "c");
    assert_eq!(task.executor_id, "e");
    assert_eq!(task.status, TaskStatus::New);
    assert_eq!(task.priority, TaskPriority::Critical);
    assert!(task.due_date.expect("due").same(&due));
    assert!(task.completed_at.is_none());
    assert_eq!(task.tags, vec![tag]);
    assert!(task.created_at.secs() > 1_600_000_000);
}

#[test]
fn task_without_due_date_is_never_overdue() {
    let task = task_due(TaskStatus::New, None);
    assert!(!task.is_overdue());
    assert_eq!(task.overdue_days(), None);
    assert!(!task.is_overdue_at(&at(MAX_SECS, 0)));
    assert_eq!(task.overdue_days_at(&at(MAX_SECS, 0)), None);
}

#[test]
fn closed_task_is_never_overdue() {
    let due = at(1_000, 0);
    for status in [TaskStatus::Completed, TaskStatus::Cancelled] {
        let task = task_due(status, Some(due));
        assert!(!task.is_overdue());
        assert_eq!(task.overdue_days(), None);
        assert!(!task.is_overdue_at(&at(2_000, 0)));
    }
}

#[test]
fn open_task_is_overdue_after_its_due_date() {
    let due = at(1_000_000, 0);
    for status in [TaskStatus::New, TaskStatus::InProgress] {
        let task = task_due(status, Some(due));
        assert!(!task.is_overdue_at(&at(1_000_000, 0)));
        assert!(task.is_overdue_at(&at(1_000_000, 1)));
        assert!(!task.is_overdue_at(&at(999_999, 0)));
        assert_eq!(task.overdue_days_at(&at(1_000_000, 1)), Some(0));
        assert_eq!(task.overdue_days_at(&at(1_000_000 + 86_400 * 5 + 3, 0)), Some(5));
        assert_eq!(task.overdue_days_at(&at(1_000_000, 0)), None);
    }
}

#[test]
fn task_due_in_the_past_is_overdue_now() {
    let task = task_due(TaskStatus::InProgress, Some(at(86_400, 0)));
    assert!(task.is_overdue());
    let days = task.overdue_days().expect("overdue");
    assert!(days > 18_000);
    let later = task_due(TaskStatus::New, Some(at(MAX_SECS, 0)));
    assert!(!later.is_overdue());
    assert_eq!(later.overdue_days(), None);
}

#[test]
fn open_task_due_before_the_epoch_is_overdue_now() {
    for status in [TaskStatus::New, TaskStatus::InProgress] {
        let task = task_due(status, Some(at(-1, 999_999_999)));
        assert!(task.is_overdue());
        assert!(task.overdue_days().expect("overdue") >= 18_000);
        let oldest = task_due(status, Some(at(MIN_SECS, 0)));
        assert!(oldest.is_overdue());
        assert!(oldest.overdue_days().expect("overdue") >= 719_528);
    }
    let closed = task_due(TaskStatus::Completed, Some(at(-1, 0)));
    assert!(!closed.is_overdue());
    assert_eq!(closed.overdue_days(), None);
}

#[test]
fn the_clock_does_not_stand_before_the_epoch() {
    let now = Timestamp::now();
    now.check();
    assert!(now.secs() >= 0);
    assert!(now.is_after(&at(-1, 999_999_999)));
}

#[test]
fn leap_second_is_held_as_the_last_nanosecond() {
    let leap = Timestamp::parse_rfc3339("2016-12-31T23:59:60Z").expect("held");
    assert_eq!((leap.secs(), leap.nanos()), (1_483_228_799, 999_999_999));
    let within = Timestamp::parse_rfc3339("2016-12-31T23:59:60.25Z").expect("held");
    assert_eq!((within.secs(), within.nanos()), (1_483_228_799, 999_999_999));
    let held = Timestamp::from_parsed(59, 1_500_000_000).expect("held");
    assert_eq!((held.secs(), held.nanos()), (59, 999_999_999));
    let plain = Timestamp::from_parsed(59, 999_999_998).expect("held");
    assert_eq!((plain.secs(), plain.nanos()), (59, 999_999_998));
}
