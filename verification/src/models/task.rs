//! Tasks, their status and priority, and when a task counts as overdue.

use super::ident::{new_id, ID_LEN};
use super::tag::{Tag, TagView};
use super::timestamp::{Instant, Timestamp};
use crate::text::same_text;
use vstd::prelude::*;

verus! {

/// Where a task stands in its life.
#[derive(Debug, Clone, Copy, PartialEq, Eq, Structural)]
pub enum TaskStatus {
    New,
    InProgress,
    Completed,
    Cancelled,
}

/// How urgent a task is.
#[derive(Debug, Clone, Copy, PartialEq, Eq, Structural)]
pub enum TaskPriority {
    Low,
    Medium,
    High,
    Critical,
}

impl TaskStatus {
    /// The token that stands for the status in the store.
    pub open spec fn token(self) -> Seq<char> {
        match self {
            TaskStatus::New => "new"@,
            TaskStatus::InProgress => "in_progress"@,
            TaskStatus::Completed => "completed"@,
            TaskStatus::Cancelled => "cancelled"@,
        }
    }

    /// The status that a token stands for.
    pub open spec fn of_token(token: Seq<char>) -> Option<TaskStatus> {
        if token == "new"@ {
            Some(TaskStatus::New)
        } else if token == "in_progress"@ {
            Some(TaskStatus::InProgress)
        } else if token == "completed"@ {
            Some(TaskStatus::Completed)
        } else if token == "cancelled"@ {
            Some(TaskStatus::Cancelled)
        } else {
            None
        }
    }

    /// The name of the status as it is shown to people.
    pub open spec fn label_text(self) -> Seq<char> {
        match self {
            TaskStatus::New => "Новая"@,
            TaskStatus::InProgress => "В работе"@,
            TaskStatus::Completed => "Завершена"@,
            TaskStatus::Cancelled => "Отменена"@,
        }
    }

    /// Whether no more work is due on a task of this status.
    pub open spec fn is_closed(self) -> bool {
        self == TaskStatus::Completed || self == TaskStatus::Cancelled
    }

    /// The token that stands for the value in the store.
    pub fn as_token(&self) -> (r: &'static str)
        ensures
            r@ == self.token(),
    {
        match self {
            TaskStatus::New => "new",
            TaskStatus::InProgress => "in_progress",
            TaskStatus::Completed => "completed",
            TaskStatus::Cancelled => "cancelled",
        }
    }

    /// Reads a token; one that stands for no status gives `None`.
    pub fn from_token(token: &str) -> (r: Option<TaskStatus>)
        ensures
            r == TaskStatus::of_token(token@),
    {
        if same_text(token, "new") {
            Some(TaskStatus::New)
        } else if same_text(token, "in_progress") {
            Some(TaskStatus::InProgress)
        } else if same_text(token, "completed") {
            Some(TaskStatus::Completed)
        } else if same_text(token, "cancelled") {
            Some(TaskStatus::Cancelled)
        } else {
            None
        }
    }

    /// The name of the value as it is shown to people.
    pub fn label(&self) -> (r: String)
        ensures
            r@ == self.label_text(),
    {
        match self {
            TaskStatus::New => "Новая".to_owned(),
            TaskStatus::InProgress => "В работе".to_owned(),
            TaskStatus::Completed => "Завершена".to_owned(),
            TaskStatus::Cancelled => "Отменена".to_owned(),
        }
    }

    /// Reading the token of a status gives the status back.
    pub proof fn lemma_token_round_trip(self)
        ensures
            TaskStatus::of_token(self.token()) == Some(self),
    {
        reveal_strlit("new");
        reveal_strlit("in_progress");
        reveal_strlit("completed");
        reveal_strlit("cancelled");
        assert("new"@.len() == 3);
        assert("in_progress"@.len() == 11);
        assert("completed"@[1] != "cancelled"@[1]);
    }

    /// A token that is read stands for exactly the status whose token it is.
    pub proof fn lemma_token_unique(token: Seq<char>, status: TaskStatus)
        ensures
            TaskStatus::of_token(token) == Some(status) <==> token == status.token(),
    {
        status.lemma_token_round_trip();
    }
}

impl TaskPriority {
    /// The token that stands for the priority in the store.
    pub open spec fn token(self) -> Seq<char> {
        match self {
            TaskPriority::Low => "low"@,
            TaskPriority::Medium => "medium"@,
            TaskPriority::High => "high"@,
            TaskPriority::Critical => "critical"@,
        }
    }

    /// The priority that a token stands for.
    pub open spec fn of_token(token: Seq<char>) -> Option<TaskPriority> {
        if token == "low"@ {
            Some(TaskPriority::Low)
        } else if token == "medium"@ {
            Some(TaskPriority::Medium)
        } else if token == "high"@ {
            Some(TaskPriority::High)
        } else if token == "critical"@ {
            Some(TaskPriority::Critical)
        } else {
            None
        }
    }

    /// The name of the priority as it is shown to people.
    pub open spec fn label_text(self) -> Seq<char> {
        match self {
            TaskPriority::Low => "Низкий"@,
            TaskPriority::Medium => "Средний"@,
            TaskPriority::High => "Высокий"@,
            TaskPriority::Critical => "Критический"@,
        }
    }

    /// The token that stands for the value in the store.
    pub fn as_token(&self) -> (r: &'static str)
        ensures
            r@ == self.token(),
    {
        match self {
            TaskPriority::Low => "low",
            TaskPriority::Medium => "medium",
            TaskPriority::High => "high",
            TaskPriority::Critical => "critical",
        }
    }

    /// Reads a token; one that stands for no priority gives `None`.
    pub fn from_token(token: &str) -> (r: Option<TaskPriority>)
        ensures
            r == TaskPriority::of_token(token@),
    {
        if same_text(token, "low") {
            Some(TaskPriority::Low)
        } else if same_text(token, "medium") {
            Some(TaskPriority::Medium)
        } else if same_text(token, "high") {
            Some(TaskPriority::High)
        } else if same_text(token, "critical") {
            Some(TaskPriority::Critical)
        } else {
            None
        }
    }

    /// The name of the value as it is shown to people.
    pub fn label(&self) -> (r: String)
        ensures
            r@ == self.label_text(),
    {
        match self {
            TaskPriority::Low => "Низкий".to_owned(),
            TaskPriority::Medium => "Средний".to_owned(),
            TaskPriority::High => "Высокий".to_owned(),
            TaskPriority::Critical => "Критический".to_owned(),
        }
    }

    /// Reading the token of a priority gives the priority back.
    pub proof fn lemma_token_round_trip(self)
        ensures
            TaskPriority::of_token(self.token()) == Some(self),
    {
        reveal_strlit("low");
        reveal_strlit("medium");
        reveal_strlit("high");
        reveal_strlit("critical");
        assert("low"@.len() == 3);
        assert("medium"@.len() == 6);
        assert("high"@.len() == 4);
        assert("critical"@.len() == 8);
    }

    /// A token that is read stands for exactly the priority whose token it is.
    pub proof fn lemma_token_unique(token: Seq<char>, priority: TaskPriority)
        ensures
            TaskPriority::of_token(token) == Some(priority) <==> token == priority.token(),
    {
        priority.lemma_token_round_trip();
    }
}

/// The mathematical value of a [`Task`].
pub struct TaskView {
    pub id: Seq<char>,
    pub title: Seq<char>,
    pub description: Seq<char>,
    pub status: TaskStatus,
    pub priority: TaskPriority,
    pub customer_id: Seq<char>,
    pub executor_id: Seq<char>,
    pub created_at: Instant,
    pub due_date: Option<Instant>,
    pub completed_at: Option<Instant>,
    pub tags: Seq<TagView>,
}

impl TaskView {
    /// Whether the task is overdue at the instant `now`: it is still open and
    /// its due date has passed.
    pub open spec fn is_overdue_at(self, now: Instant) -> bool {
        &&& !self.status.is_closed()
        &&& self.due_date matches Some(due) && now.is_after(due)
    }

    /// Whether the task is still open and was due before the Unix epoch: it
    /// is overdue at every instant that the system clock may show.
    pub open spec fn is_due_before_the_epoch(self) -> bool {
        &&& !self.status.is_closed()
        &&& self.due_date is Some
        &&& self.due_date->0.secs < 0
    }

    /// By how many whole days the task is overdue at `now`, if it is.
    pub open spec fn overdue_days_at(self, now: Instant) -> Option<int> {
        if self.is_overdue_at(now) {
            Some(now.whole_days_since(self.due_date->0))
        } else {
            None
        }
    }
}

/// A piece of work that a customer orders from an executor.
#[derive(Debug)]
pub struct Task {
    pub id: String,
    pub title: String,
    pub description: String,
    pub status: TaskStatus,
    pub priority: TaskPriority,
    pub customer_id: String,
    pub executor_id: String,
    pub created_at: Timestamp,
    pub due_date: Option<Timestamp>,
    pub completed_at: Option<Timestamp>,
    pub tags: Vec<Tag>,
}

/// Whether `r` is the number of days `days`, or none where there is none.
pub open spec fn same_days(r: Option<i64>, days: Option<int>) -> bool {
    match r {
        Some(d) => days == Some(d as int),
        None => days is None,
    }
}

/// The value of an optional timestamp.
pub open spec fn instant_of(t: Option<Timestamp>) -> Option<Instant> {
    match t {
        Some(t) => Some(t@),
        None => None,
    }
}

/// The values of a list of tags, in order.
pub open spec fn tag_views(tags: Seq<Tag>) -> Seq<TagView> {
    tags.map_values(|t: Tag| t@)
}

impl View for Task {
    type V = TaskView;

    open spec fn view(&self) -> TaskView {
        TaskView {
            id: self.id@,
            title: self.title@,
            description: self.description@,
            status: self.status,
            priority: self.priority,
            customer_id: self.customer_id@,
            executor_id: self.executor_id@,
            created_at: self.created_at@,
            due_date: instant_of(self.due_date),
            completed_at: instant_of(self.completed_at),
            tags: tag_views(self.tags@),
        }
    }
}

/// A copy of a list of tags.
pub fn clone_tags(tags: &Vec<Tag>) -> (r: Vec<Tag>)
    ensures
        tag_views(r@) == tag_views(tags@),
{
    let mut out: Vec<Tag> = Vec::new();
    let mut i: usize = 0;
    while i < tags.len()
        invariant
            i <= tags.len(),
            out@.len() == i,
            forall|k: int| 0 <= k < i ==> (#[trigger] out@[k])@ == tags@[k]@,
        decreases tags.len() - i,
    {
        out.push(tags[i].clone());
        i += 1;
    }
    assert(tag_views(out@) =~= tag_views(tags@));
    out
}

impl Clone for Task {
    fn clone(&self) -> (r: Self)
        ensures
            r@ == self@,
    {
        Task {
            id: self.id.clone(),
            title: self.title.clone(),
            description: self.description.clone(),
            status: self.status,
            priority: self.priority,
            customer_id: self.customer_id.clone(),
            executor_id: self.executor_id.clone(),
            created_at: self.created_at,
            due_date: self.due_date,
            completed_at: self.completed_at,
            tags: clone_tags(&self.tags),
        }
    }
}

impl Task {
    /// A new task with a fresh identifier, created at the current instant.
    pub fn new(
        title: String,
        description: String,
        customer_id: String,
        executor_id: String,
        priority: TaskPriority,
        due_date: Option<Timestamp>,
        tags: Vec<Tag>,
    ) -> (r: Task)
        ensures
            r.id@.len() == ID_LEN,
            r.title == title,
            r.description == description,
            r.status == TaskStatus::New,
            r.priority == priority,
            r.customer_id == customer_id,
            r.executor_id == executor_id,
            r.created_at@.on_the_clock(),
            r.due_date == due_date,
            r.completed_at is None,
            r.tags == tags,
    {
        Task {
            id: new_id(),
            title,
            description,
            status: TaskStatus::New,
            priority,
            customer_id,
            executor_id,
            created_at: Timestamp::now(),
            due_date,
            completed_at: None,
            tags,
        }
    }

    /// Whether the task is overdue at `now`.
    pub fn is_overdue_at(&self, now: &Timestamp) -> (r: bool)
        ensures
            r == self@.is_overdue_at(now@),
    {
        match self.status {
            TaskStatus::Completed => false,
            TaskStatus::Cancelled => false,
            _ => match &self.due_date {
                Some(due) => now.is_after(due),
                None => false,
            },
        }
    }

    /// By how many whole days the task is overdue at `now`, if it is.
    pub fn overdue_days_at(&self, now: &Timestamp) -> (r: Option<i64>)
        ensures
            match r {
                Some(days) => self@.overdue_days_at(now@) == Some(days as int) && days >= 0,
                None => self@.overdue_days_at(now@) is None,
            },
    {
        if !self.is_overdue_at(now) {
            return None;
        }
        match &self.due_date {
            Some(due) => Some(now.whole_days_since(due)),
            None => None,
        }
    }

    /// Whether the task is overdue by the system clock: what
    /// [`Task::is_overdue_at`] says at the instant that the clock shows. A
    /// closed task and a task without a due date never are; an open task that
    /// was due before the Unix epoch always is.
    pub fn is_overdue(&self) -> (r: bool)
        ensures
            exists|now: Instant| now.on_the_clock() && r == #[trigger] self@.is_overdue_at(now),
            self@.status.is_closed() || self@.due_date is None ==> !r,
            self@.is_due_before_the_epoch() ==> r,
    {
        let now = Timestamp::now();
        if let Some(due) = &self.due_date {
            due.check();
        }
        self.is_overdue_at(&now)
    }

    /// By how many whole days the task is overdue by the system clock, if it
    /// is: what [`Task::overdue_days_at`] says at the instant that the clock
    /// shows. A closed task and a task without a due date give `None`; an
    /// open task that was due before the Unix epoch gives `Some`.
    pub fn overdue_days(&self) -> (r: Option<i64>)
        ensures
            exists|now: Instant|
                now.on_the_clock() && same_days(r, #[trigger] self@.overdue_days_at(now)),
            self@.status.is_closed() || self@.due_date is None ==> r is None,
            self@.is_due_before_the_epoch() ==> r is Some,
    {
        let now = Timestamp::now();
        if let Some(due) = &self.due_date {
            due.check();
        }
        let r = self.overdue_days_at(&now);
        proof {
            assert(same_days(r, self@.overdue_days_at(now@)));
        }
        r
    }
}

} // verus!
