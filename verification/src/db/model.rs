//! What a repository stores, as a mathematical value, and what each of its
//! operations makes of that value. The repository in memory keeps to this
//! model exactly; the repository on SQLite is not tied to it.

use super::error::{
    link_not_found, tag_not_found, task_not_found, user_not_found, RepositoryErrorView,
};
use crate::models::tag::TagView;
use crate::models::task::TaskView;
use crate::models::user::UserView;
use vstd::prelude::*;

verus! {

/// Whether `i` is the first place of `key` in `keys`.
pub open spec fn first_at<K>(keys: Seq<K>, key: K, i: int) -> bool {
    &&& 0 <= i < keys.len()
    &&& keys[i] == key
    &&& forall|j: int| 0 <= j < i ==> keys[j] != key
}

/// The first place of `key` in `keys`, if it occurs.
pub open spec fn position<K>(keys: Seq<K>, key: K) -> Option<int> {
    if exists|i: int| first_at(keys, key, i) {
        Some(choose|i: int| first_at(keys, key, i))
    } else {
        None
    }
}

/// A first place is the position.
pub proof fn lemma_position_is<K>(keys: Seq<K>, key: K, i: int)
    requires
        first_at(keys, key, i),
    ensures
        position(keys, key) == Some(i),
{
    let c = choose|c: int| first_at(keys, key, c);
    if c < i {
        assert(keys[c] != key);
    } else if i < c {
        assert(keys[i] != key);
    }
}

/// A key that occurs has a first place.
pub proof fn lemma_position_of_member<K>(keys: Seq<K>, key: K, i: int)
    requires
        0 <= i < keys.len(),
        keys[i] == key,
    ensures
        position(keys, key) matches Some(p) && first_at(keys, key, p) && p <= i,
    decreases i,
{
    if forall|j: int| 0 <= j < i ==> keys[j] != key {
        assert(first_at(keys, key, i));
        lemma_position_is(keys, key, i);
    } else {
        let j = choose|j: int| 0 <= j < i && keys[j] == key;
        lemma_position_of_member(keys, key, j);
    }
}

/// A position is a first place, and a key has one exactly if it occurs.
pub proof fn lemma_position<K>(keys: Seq<K>, key: K)
    ensures
        position(keys, key) matches Some(p) ==> first_at(keys, key, p),
        position(keys, key) is Some <==> keys.contains(key),
{
    if keys.contains(key) {
        let i = choose|i: int| 0 <= i < keys.len() && keys[i] == key;
        lemma_position_of_member(keys, key, i);
    }
    if position(keys, key) is Some {
        let p = choose|i: int| first_at(keys, key, i);
        assert(keys[p] == key);
    }
}

/// One mark of a task with a tag.
pub struct LinkView {
    pub task_id: Seq<char>,
    pub tag_id: Seq<char>,
}

/// The identifiers of the users, in order.
pub open spec fn user_ids(users: Seq<UserView>) -> Seq<Seq<char>> {
    users.map_values(|u: UserView| u.id)
}

/// The emails of the users, in order.
pub open spec fn user_emails(users: Seq<UserView>) -> Seq<Seq<char>> {
    users.map_values(|u: UserView| u.email)
}

/// The identifiers of the tags, in order.
pub open spec fn tag_ids(tags: Seq<TagView>) -> Seq<Seq<char>> {
    tags.map_values(|t: TagView| t.id)
}

/// The names of the tags, in order.
pub open spec fn tag_names(tags: Seq<TagView>) -> Seq<Seq<char>> {
    tags.map_values(|t: TagView| t.name)
}

/// The identifiers of the tasks, in order.
pub open spec fn task_ids(tasks: Seq<TaskView>) -> Seq<Seq<char>> {
    tasks.map_values(|t: TaskView| t.id)
}

/// A task as its row holds it: without tags.
pub open spec fn row_of(t: TaskView) -> TaskView {
    TaskView { tags: Seq::empty(), ..t }
}

/// The marks `links` and, for every tag of `tags` in order, the mark of the
/// task with it, unless it is there already.
pub open spec fn with_links(links: Seq<LinkView>, task_id: Seq<char>, tags: Seq<Seq<char>>) -> Seq<
    LinkView,
>
    decreases tags.len(),
{
    if tags.len() == 0 {
        links
    } else {
        let before = with_links(links, task_id, tags.drop_last());
        let link = LinkView { task_id, tag_id: tags.last() };
        if before.contains(link) {
            before
        } else {
            before.push(link)
        }
    }
}

/// The marks of `links` that are not marks of the task.
pub open spec fn without_task(links: Seq<LinkView>, task_id: Seq<char>) -> Seq<LinkView> {
    links.filter(|l: LinkView| l.task_id != task_id)
}

/// Those of `tags` that the task is marked with in `links`, in order.
pub open spec fn marked_tags(tags: Seq<TagView>, links: Seq<LinkView>, task_id: Seq<char>) -> Seq<
    TagView,
> {
    tags.filter(|t: TagView| links.contains(LinkView { task_id, tag_id: t.id }))
}

/// Whether place `i` of `wanted` is the first that holds an identifier that
/// is none of `stored`.
pub open spec fn missing_first_at(stored: Seq<Seq<char>>, wanted: Seq<Seq<char>>, i: int) -> bool {
    &&& 0 <= i < wanted.len()
    &&& !stored.contains(wanted[i])
    &&& forall|j: int| 0 <= j < i ==> stored.contains(#[trigger] wanted[j])
}

/// The first place of `wanted` that holds an identifier that is none of
/// `stored`.
pub open spec fn first_missing(stored: Seq<Seq<char>>, wanted: Seq<Seq<char>>) -> Option<int> {
    if exists|i: int| missing_first_at(stored, wanted, i) {
        Some(choose|i: int| missing_first_at(stored, wanted, i))
    } else {
        None
    }
}

/// A first missing place is the first missing place.
pub proof fn lemma_first_missing_is(stored: Seq<Seq<char>>, wanted: Seq<Seq<char>>, i: int)
    requires
        missing_first_at(stored, wanted, i),
    ensures
        first_missing(stored, wanted) == Some(i),
{
    let c = choose|c: int| missing_first_at(stored, wanted, c);
    if c < i {
        assert(stored.contains(wanted[c]));
    } else if i < c {
        assert(stored.contains(wanted[i]));
    }
}

/// Where no place is missing, every wanted identifier is stored.
pub proof fn lemma_first_missing_none(stored: Seq<Seq<char>>, wanted: Seq<Seq<char>>)
    requires
        forall|j: int| 0 <= j < wanted.len() ==> stored.contains(#[trigger] wanted[j]),
    ensures
        first_missing(stored, wanted) is None,
{
}

/// A wanted identifier that is not stored has a first such place before or at
/// its own.
pub proof fn lemma_first_missing_of(stored: Seq<Seq<char>>, wanted: Seq<Seq<char>>, i: int)
    requires
        0 <= i < wanted.len(),
        !stored.contains(wanted[i]),
    ensures
        first_missing(stored, wanted) matches Some(p) && missing_first_at(stored, wanted, p)
            && p <= i,
    decreases i,
{
    if forall|j: int| 0 <= j < i ==> stored.contains(#[trigger] wanted[j]) {
        assert(missing_first_at(stored, wanted, i));
        lemma_first_missing_is(stored, wanted, i);
    } else {
        let j = choose|j: int| 0 <= j < i && !stored.contains(#[trigger] wanted[j]);
        lemma_first_missing_of(stored, wanted, j);
    }
}

/// The first missing place is one, and there is none exactly where every
/// wanted identifier is stored.
pub proof fn lemma_first_missing(stored: Seq<Seq<char>>, wanted: Seq<Seq<char>>)
    ensures
        first_missing(stored, wanted) matches Some(p) ==> missing_first_at(stored, wanted, p),
        first_missing(stored, wanted) is None <==> forall|j: int|
            0 <= j < wanted.len() ==> stored.contains(#[trigger] wanted[j]),
{
    if !(forall|j: int| 0 <= j < wanted.len() ==> stored.contains(#[trigger] wanted[j])) {
        let j = choose|j: int| 0 <= j < wanted.len() && !stored.contains(#[trigger] wanted[j]);
        lemma_first_missing_of(stored, wanted, j);
    }
}

/// The complaint about a user identifier that is taken.
pub open spec fn duplicate_user_id() -> RepositoryErrorView {
    RepositoryErrorView::Database("UNIQUE constraint failed: users.id"@)
}

/// The complaint about an email that is taken.
pub open spec fn duplicate_user_email() -> RepositoryErrorView {
    RepositoryErrorView::Database("UNIQUE constraint failed: users.email"@)
}

/// The complaint about a tag identifier that is taken.
pub open spec fn duplicate_tag_id() -> RepositoryErrorView {
    RepositoryErrorView::Database("UNIQUE constraint failed: tags.id"@)
}

/// The complaint about a tag name that is taken.
pub open spec fn duplicate_tag_name() -> RepositoryErrorView {
    RepositoryErrorView::Database("UNIQUE constraint failed: tags.name"@)
}

/// The complaint about a task identifier that is taken.
pub open spec fn duplicate_task_id() -> RepositoryErrorView {
    RepositoryErrorView::Database("UNIQUE constraint failed: tasks.id"@)
}

/// What a repository stores: the rows of its four tables, in the order in
/// which they were written.
pub struct StoreView {
    pub users: Seq<UserView>,
    pub tags: Seq<TagView>,
    /// The rows of the tasks: each without tags.
    pub tasks: Seq<TaskView>,
    pub links: Seq<LinkView>,
}

/// A store and the outcome of an operation on it.
pub type Step = (StoreView, Result<(), RepositoryErrorView>);

impl StoreView {
    /// The store that holds nothing.
    pub open spec fn empty() -> StoreView {
        StoreView { users: Seq::empty(), tags: Seq::empty(), tasks: Seq::empty(), links: Seq::empty() }
    }

    /// The constraints of the four tables: identifiers, emails and tag names
    /// occur once, a mark occurs once and joins a stored task with a stored
    /// tag, and a task row holds no tags.
    pub open spec fn wf(self) -> bool {
        &&& forall|l: LinkView| #[trigger]
            self.links.contains(l) ==> task_ids(self.tasks).contains(l.task_id) && tag_ids(
                self.tags,
            ).contains(l.tag_id)
        &&& user_ids(self.users).no_duplicates()
        &&& user_emails(self.users).no_duplicates()
        &&& tag_ids(self.tags).no_duplicates()
        &&& tag_names(self.tags).no_duplicates()
        &&& task_ids(self.tasks).no_duplicates()
        &&& self.links.no_duplicates()
        &&& forall|i: int| 0 <= i < self.tasks.len() ==> (#[trigger] self.tasks[i]).tags == Seq::<
            TagView,
        >::empty()
    }

    /// The place of the user with the identifier.
    pub open spec fn user_at(self, id: Seq<char>) -> Option<int> {
        position(user_ids(self.users), id)
    }

    /// The place of the user with the email.
    pub open spec fn email_at(self, email: Seq<char>) -> Option<int> {
        position(user_emails(self.users), email)
    }

    /// The place of the tag with the identifier.
    pub open spec fn tag_at(self, id: Seq<char>) -> Option<int> {
        position(tag_ids(self.tags), id)
    }

    /// The place of the tag with the name.
    pub open spec fn tag_named(self, name: Seq<char>) -> Option<int> {
        position(tag_names(self.tags), name)
    }

    /// The place of the task with the identifier.
    pub open spec fn task_at(self, id: Seq<char>) -> Option<int> {
        position(task_ids(self.tasks), id)
    }

    /// The place of the mark of the task with the tag.
    pub open spec fn link_at(self, task_id: Seq<char>, tag_id: Seq<char>) -> Option<int> {
        position(self.links, LinkView { task_id, tag_id })
    }

    /// Whether the task is marked with the tag.
    pub open spec fn has_link(self, task_id: Seq<char>, tag_id: Seq<char>) -> bool {
        self.links.contains(LinkView { task_id, tag_id })
    }

    /// The tags that the task is marked with, in the order of the tag table:
    /// the join of the tags with the marks of the task.
    pub open spec fn tags_of(self, task_id: Seq<char>) -> Seq<TagView> {
        marked_tags(self.tags, self.links, task_id)
    }

    /// The task row at a place, with its tags filled in.
    pub open spec fn task_with_tags(self, i: int) -> TaskView {
        TaskView { tags: self.tags_of(self.tasks[i].id), ..self.tasks[i] }
    }

    /// Every task with its tags, in the order of the task table.
    pub open spec fn all_tasks(self) -> Seq<TaskView> {
        Seq::new(self.tasks.len(), |i: int| self.task_with_tags(i))
    }

    /// The user with the identifier, or not found.
    pub open spec fn get_user_by_id(self, id: Seq<char>) -> Result<UserView, RepositoryErrorView> {
        match self.user_at(id) {
            Some(i) => Ok(self.users[i]),
            None => Err(RepositoryErrorView::NotFound(user_not_found(id))),
        }
    }

    /// The tag with the identifier, or not found.
    pub open spec fn get_tag_by_id(self, id: Seq<char>) -> Result<TagView, RepositoryErrorView> {
        match self.tag_at(id) {
            Some(i) => Ok(self.tags[i]),
            None => Err(RepositoryErrorView::NotFound(tag_not_found(id))),
        }
    }

    /// The task with the identifier and its tags, or not found.
    pub open spec fn get_task_by_id(self, id: Seq<char>) -> Result<TaskView, RepositoryErrorView> {
        match self.task_at(id) {
            Some(i) => Ok(self.task_with_tags(i)),
            None => Err(RepositoryErrorView::NotFound(task_not_found(id))),
        }
    }

    /// A user is added unless its identifier or its email is taken.
    pub open spec fn create_user(self, u: UserView) -> Step {
        if self.user_at(u.id) is Some {
            (self, Err(duplicate_user_id()))
        } else if self.email_at(u.email) is Some {
            (self, Err(duplicate_user_email()))
        } else {
            (StoreView { users: self.users.push(u), ..self }, Ok(()))
        }
    }

    /// The user with the identifier of `u` becomes `u`, unless there is none
    /// or another user has the email.
    pub open spec fn update_user(self, u: UserView) -> Step {
        match self.user_at(u.id) {
            None => (self, Err(RepositoryErrorView::NotFound(user_not_found(u.id)))),
            Some(i) => if self.email_at(u.email) matches Some(j) && j != i {
                (self, Err(duplicate_user_email()))
            } else {
                (StoreView { users: self.users.update(i, u), ..self }, Ok(()))
            },
        }
    }

    /// The user with the identifier leaves, unless there is none.
    pub open spec fn delete_user(self, id: Seq<char>) -> Step {
        match self.user_at(id) {
            None => (self, Err(RepositoryErrorView::NotFound(user_not_found(id)))),
            Some(i) => (StoreView { users: self.users.remove(i), ..self }, Ok(())),
        }
    }

    /// A tag is added unless its identifier or its name is taken.
    pub open spec fn create_tag(self, t: TagView) -> Step {
        if self.tag_at(t.id) is Some {
            (self, Err(duplicate_tag_id()))
        } else if self.tag_named(t.name) is Some {
            (self, Err(duplicate_tag_name()))
        } else {
            (StoreView { tags: self.tags.push(t), ..self }, Ok(()))
        }
    }

    /// The task is marked with the tag, if both exist; a mark that is there
    /// stays as it is.
    pub open spec fn add_tag_to_task(self, task_id: Seq<char>, tag_id: Seq<char>) -> Step {
        if self.task_at(task_id) is None {
            (self, Err(RepositoryErrorView::NotFound(task_not_found(task_id))))
        } else if self.tag_at(tag_id) is None {
            (self, Err(RepositoryErrorView::NotFound(tag_not_found(tag_id))))
        } else {
            (StoreView { links: with_links(self.links, task_id, seq![tag_id]), ..self }, Ok(()))
        }
    }

    /// The mark of the task with the tag leaves, unless there is none.
    pub open spec fn remove_tag_from_task(self, task_id: Seq<char>, tag_id: Seq<char>) -> Step {
        match self.link_at(task_id, tag_id) {
            None => (self, Err(RepositoryErrorView::NotFound(link_not_found(task_id, tag_id)))),
            Some(i) => (StoreView { links: self.links.remove(i), ..self }, Ok(())),
        }
    }

    /// The complaint about the customer or the executor of the task, where one
    /// of them is not stored.
    pub open spec fn missing_person(self, t: TaskView) -> Option<RepositoryErrorView> {
        if self.user_at(t.customer_id) is None {
            Some(RepositoryErrorView::NotFound(user_not_found(t.customer_id)))
        } else if self.user_at(t.executor_id) is None {
            Some(RepositoryErrorView::NotFound(user_not_found(t.executor_id)))
        } else {
            None
        }
    }

    /// The complaint about the first tag of the task that is not stored.
    pub open spec fn missing_tag(self, t: TaskView) -> Option<RepositoryErrorView> {
        match first_missing(tag_ids(self.tags), tag_ids(t.tags)) {
            Some(i) => Some(RepositoryErrorView::NotFound(tag_not_found(t.tags[i].id))),
            None => None,
        }
    }

    /// A task is added and marked with exactly its tags, unless its customer
    /// or executor is missing, its identifier is taken or one of its tags is
    /// missing; then nothing is written.
    pub open spec fn create_task(self, t: TaskView) -> Step {
        if self.missing_person(t) is Some {
            (self, Err(self.missing_person(t)->0))
        } else if self.task_at(t.id) is Some {
            (self, Err(duplicate_task_id()))
        } else if self.missing_tag(t) is Some {
            (self, Err(self.missing_tag(t)->0))
        } else {
            (
                StoreView {
                    tasks: self.tasks.push(row_of(t)),
                    links: with_links(self.links, t.id, tag_ids(t.tags)),
                    ..self
                },
                Ok(()),
            )
        }
    }

    /// The task with the identifier of `t` takes every field of `t` but the
    /// creation instant, and exactly the tags of `t`, unless the task, its
    /// customer, its executor or one of its tags is missing; then nothing is
    /// written.
    pub open spec fn update_task(self, t: TaskView) -> Step {
        match self.task_at(t.id) {
            None => (self, Err(RepositoryErrorView::NotFound(task_not_found(t.id)))),
            Some(i) => if self.missing_person(t) is Some {
                (self, Err(self.missing_person(t)->0))
            } else if self.missing_tag(t) is Some {
                (self, Err(self.missing_tag(t)->0))
            } else {
                (
                    StoreView {
                        tasks: self.tasks.update(
                            i,
                            TaskView { created_at: self.tasks[i].created_at, ..row_of(t) },
                        ),
                        links: with_links(without_task(self.links, t.id), t.id, tag_ids(t.tags)),
                        ..self
                    },
                    Ok(()),
                )
            },
        }
    }

    /// The task with the identifier leaves with all its marks, unless there is
    /// none.
    pub open spec fn delete_task(self, id: Seq<char>) -> Step {
        match self.task_at(id) {
            None => (self, Err(RepositoryErrorView::NotFound(task_not_found(id)))),
            Some(i) => (
                StoreView {
                    tasks: self.tasks.remove(i),
                    links: without_task(self.links, id),
                    ..self
                },
                Ok(()),
            ),
        }
    }
}

} // verus!
