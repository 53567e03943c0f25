//! The repository in memory: the four tables as plain lists, with the
//! constraints of the store kept by every write.

use super::codec::{task_views, user_views};
use super::error::{RepositoryError, RepositoryErrorView};
use super::laws::{
    lemma_add_tag_to_task_wf, lemma_create_tag_wf, lemma_create_task_wf, lemma_create_user_wf,
    lemma_delete_task_wf, lemma_delete_user_wf, lemma_remove_tag_from_task_wf,
    lemma_update_task_wf, lemma_update_user_wf,
};
use super::model::{
    first_at, first_missing, lemma_first_missing, lemma_first_missing_is,
    lemma_first_missing_none, lemma_position, lemma_position_is, marked_tags, missing_first_at,
    position, row_of, tag_ids, tag_names, task_ids, user_emails, user_ids, with_links,
    without_task, LinkView, StoreView,
};
use super::repository::{outcome_view, Repository};
use crate::models::tag::{Tag, TagView};
use crate::models::task::{clone_tags, tag_views, Task, TaskView};
use crate::models::user::{User, UserView};
use vstd::prelude::*;

verus! {

/// One mark of a task with a tag.
struct Link {
    task_id: String,
    tag_id: String,
}

impl View for Link {
    type V = LinkView;

    closed spec fn view(&self) -> LinkView {
        LinkView { task_id: self.task_id@, tag_id: self.tag_id@ }
    }
}

/// The values of a list of marks, in order.
spec fn link_views(links: Seq<Link>) -> Seq<LinkView> {
    links.map_values(|l: Link| l@)
}

/// The place of the user with the identifier.
fn find_user(users: &Vec<User>, id: &str) -> (r: Option<usize>)
    ensures
        match r {
            Some(i) => position(user_ids(user_views(users@)), id@) == Some(i as int),
            None => position(user_ids(user_views(users@)), id@) is None,
        },
{
    let key: String = id.to_owned();
    let ghost keys = user_ids(user_views(users@));
    let mut i: usize = 0;
    while i < users.len()
        invariant
            i <= users.len(),
            key@ == id@,
            keys == user_ids(user_views(users@)),
            forall|j: int| 0 <= j < i ==> keys[j] != id@,
        decreases users.len() - i,
    {
        if users[i].id == key {
            proof {
                assert(first_at(keys, id@, i as int));
                lemma_position_is(keys, id@, i as int);
            }
            return Some(i);
        }
        i += 1;
    }
    None
}

/// The place of the user with the email.
fn find_email(users: &Vec<User>, email: &str) -> (r: Option<usize>)
    ensures
        match r {
            Some(i) => position(user_emails(user_views(users@)), email@) == Some(i as int),
            None => position(user_emails(user_views(users@)), email@) is None,
        },
{
    let key: String = email.to_owned();
    let ghost keys = user_emails(user_views(users@));
    let mut i: usize = 0;
    while i < users.len()
        invariant
            i <= users.len(),
            key@ == email@,
            keys == user_emails(user_views(users@)),
            forall|j: int| 0 <= j < i ==> keys[j] != email@,
        decreases users.len() - i,
    {
        if users[i].email == key {
            proof {
                assert(first_at(keys, email@, i as int));
                lemma_position_is(keys, email@, i as int);
            }
            return Some(i);
        }
        i += 1;
    }
    None
}

/// The place of the tag with the identifier.
fn find_tag(tags: &Vec<Tag>, id: &str) -> (r: Option<usize>)
    ensures
        match r {
            Some(i) => position(tag_ids(tag_views(tags@)), id@) == Some(i as int),
            None => position(tag_ids(tag_views(tags@)), id@) is None,
        },
{
    let key: String = id.to_owned();
    let ghost keys = tag_ids(tag_views(tags@));
    let mut i: usize = 0;
    while i < tags.len()
        invariant
            i <= tags.len(),
            key@ == id@,
            keys == tag_ids(tag_views(tags@)),
            forall|j: int| 0 <= j < i ==> keys[j] != id@,
        decreases tags.len() - i,
    {
        if tags[i].id == key {
            proof {
                assert(first_at(keys, id@, i as int));
                lemma_position_is(keys, id@, i as int);
            }
            return Some(i);
        }
        i += 1;
    }
    None
}

/// The place of the tag with the name.
fn find_tag_named(tags: &Vec<Tag>, name: &str) -> (r: Option<usize>)
    ensures
        match r {
            Some(i) => position(tag_names(tag_views(tags@)), name@) == Some(i as int),
            None => position(tag_names(tag_views(tags@)), name@) is None,
        },
{
    let key: String = name.to_owned();
    let ghost keys = tag_names(tag_views(tags@));
    let mut i: usize = 0;
    while i < tags.len()
        invariant
            i <= tags.len(),
            key@ == name@,
            keys == tag_names(tag_views(tags@)),
            forall|j: int| 0 <= j < i ==> keys[j] != name@,
        decreases tags.len() - i,
    {
        if tags[i].name == key {
            proof {
                assert(first_at(keys, name@, i as int));
                lemma_position_is(keys, name@, i as int);
            }
            return Some(i);
        }
        i += 1;
    }
    None
}

/// The place of the task with the identifier.
fn find_task(tasks: &Vec<Task>, id: &str) -> (r: Option<usize>)
    ensures
        match r {
            Some(i) => position(task_ids(task_views(tasks@)), id@) == Some(i as int),
            None => position(task_ids(task_views(tasks@)), id@) is None,
        },
{
    let key: String = id.to_owned();
    let ghost keys = task_ids(task_views(tasks@));
    let mut i: usize = 0;
    while i < tasks.len()
        invariant
            i <= tasks.len(),
            key@ == id@,
            keys == task_ids(task_views(tasks@)),
            forall|j: int| 0 <= j < i ==> keys[j] != id@,
        decreases tasks.len() - i,
    {
        if tasks[i].id == key {
            proof {
                assert(first_at(keys, id@, i as int));
                lemma_position_is(keys, id@, i as int);
            }
            return Some(i);
        }
        i += 1;
    }
    None
}

/// The place of the mark of the task with the tag.
fn find_link(links: &Vec<Link>, task_id: &str, tag_id: &str) -> (r: Option<usize>)
    ensures
        match r {
            Some(i) => position(link_views(links@), LinkView { task_id: task_id@, tag_id: tag_id@ })
                == Some(i as int),
            None => position(link_views(links@), LinkView { task_id: task_id@, tag_id: tag_id@ })
                is None,
        },
{
    let task_key: String = task_id.to_owned();
    let tag_key: String = tag_id.to_owned();
    let ghost keys = link_views(links@);
    let ghost key = LinkView { task_id: task_id@, tag_id: tag_id@ };
    let mut i: usize = 0;
    while i < links.len()
        invariant
            i <= links.len(),
            task_key@ == task_id@,
            tag_key@ == tag_id@,
            key == (LinkView { task_id: task_id@, tag_id: tag_id@ }),
            keys == link_views(links@),
            forall|j: int| 0 <= j < i ==> keys[j] != key,
        decreases links.len() - i,
    {
        if links[i].task_id == task_key && links[i].tag_id == tag_key {
            proof {
                assert(first_at(keys, key, i as int));
                lemma_position_is(keys, key, i as int);
            }
            return Some(i);
        }
        i += 1;
    }
    None
}

/// The first place of `wanted` whose tag is none of `stored`.
fn find_missing(stored: &Vec<Tag>, wanted: &Vec<Tag>) -> (r: Option<usize>)
    ensures
        match r {
            Some(i) => first_missing(tag_ids(tag_views(stored@)), tag_ids(tag_views(wanted@)))
                == Some(i as int),
            None => first_missing(tag_ids(tag_views(stored@)), tag_ids(tag_views(wanted@)))
                is None,
        },
{
    let ghost have = tag_ids(tag_views(stored@));
    let ghost want = tag_ids(tag_views(wanted@));
    let mut i: usize = 0;
    while i < wanted.len()
        invariant
            i <= wanted.len(),
            have == tag_ids(tag_views(stored@)),
            want == tag_ids(tag_views(wanted@)),
            forall|j: int| 0 <= j < i ==> have.contains(#[trigger] want[j]),
        decreases wanted.len() - i,
    {
        proof {
            lemma_position(have, want[i as int]);
        }
        if find_tag(stored, wanted[i].id.as_str()).is_none() {
            proof {
                assert(missing_first_at(have, want, i as int));
                lemma_first_missing_is(have, want, i as int);
            }
            return Some(i);
        }
        i += 1;
    }
    proof {
        lemma_first_missing_none(have, want);
    }
    None
}

/// A copy of the marks that are not marks of the task.
fn links_without(links: &Vec<Link>, task_id: &str) -> (r: Vec<Link>)
    ensures
        link_views(r@) == without_task(link_views(links@), task_id@),
{
    let key: String = task_id.to_owned();
    let mut out: Vec<Link> = Vec::new();
    let mut i: usize = 0;
    let ghost keep = |l: LinkView| l.task_id != task_id@;
    let ghost all = link_views(links@);
    proof {
        reveal(Seq::filter);
        assert(all.take(0) =~= Seq::<LinkView>::empty());
        assert(link_views(out@) =~= all.take(0).filter(keep));
    }
    while i < links.len()
        invariant
            i <= links.len(),
            key@ == task_id@,
            all == link_views(links@),
            keep == (|l: LinkView| l.task_id != task_id@),
            link_views(out@) == all.take(i as int).filter(keep),
        decreases links.len() - i,
    {
        let ghost before = out@;
        proof {
            reveal(Seq::filter);
            assert(all.take(i as int + 1).drop_last() =~= all.take(i as int));
            assert(all.take(i as int + 1).last() == links@[i as int]@);
        }
        if links[i].task_id != key {
            let link = Link { task_id: links[i].task_id.clone(), tag_id: links[i].tag_id.clone() };
            out.push(link);
            proof {
                assert(link_views(out@) =~= link_views(before).push(links@[i as int]@));
            }
        }
        i += 1;
    }
    assert(all.take(links@.len() as int) =~= all);
    out
}

/// The marks and, for every tag of `tags` in order, the mark of the task with
/// it, unless it is there already.
fn links_with(links: Vec<Link>, task_id: &str, tags: &Vec<Tag>) -> (r: Vec<Link>)
    ensures
        link_views(r@) == with_links(link_views(links@), task_id@, tag_ids(tag_views(tags@))),
{
    let mut out = links;
    let ghost start = link_views(links@);
    let ghost ids = tag_ids(tag_views(tags@));
    let mut i: usize = 0;
    proof {
        assert(ids.take(0) =~= Seq::<Seq<char>>::empty());
    }
    while i < tags.len()
        invariant
            i <= tags.len(),
            start == link_views(links@),
            ids == tag_ids(tag_views(tags@)),
            link_views(out@) == with_links(start, task_id@, ids.take(i as int)),
        decreases tags.len() - i,
    {
        let ghost before = out@;
        proof {
            assert(ids.take(i as int + 1).drop_last() =~= ids.take(i as int));
            assert(ids.take(i as int + 1).last() == tags@[i as int]@.id);
            lemma_position(
                link_views(out@),
                LinkView { task_id: task_id@, tag_id: tags@[i as int]@.id },
            );
        }
        if find_link(&out, task_id, tags[i].id.as_str()).is_none() {
            out.push(Link { task_id: task_id.to_owned(), tag_id: tags[i].id.clone() });
            proof {
                assert(link_views(out@) =~= link_views(before).push(
                    LinkView { task_id: task_id@, tag_id: tags@[i as int]@.id },
                ));
            }
        }
        i += 1;
    }
    assert(ids.take(tags@.len() as int) =~= ids);
    out
}

/// A copy of those of `tags` that the task is marked with in `links`, in
/// order.
fn tags_marked(tags: &Vec<Tag>, links: &Vec<Link>, task_id: &str) -> (r: Vec<Tag>)
    ensures
        tag_views(r@) == marked_tags(tag_views(tags@), link_views(links@), task_id@),
{
    let mut out: Vec<Tag> = Vec::new();
    let mut i: usize = 0;
    let ghost marks = link_views(links@);
    let ghost keep = |t: TagView| marks.contains(LinkView { task_id: task_id@, tag_id: t.id });
    let ghost all = tag_views(tags@);
    proof {
        reveal(Seq::filter);
        assert(all.take(0) =~= Seq::<TagView>::empty());
        assert(tag_views(out@) =~= all.take(0).filter(keep));
    }
    while i < tags.len()
        invariant
            i <= tags.len(),
            marks == link_views(links@),
            all == tag_views(tags@),
            keep == (|t: TagView| marks.contains(LinkView { task_id: task_id@, tag_id: t.id })),
            tag_views(out@) == all.take(i as int).filter(keep),
        decreases tags.len() - i,
    {
        let ghost before = out@;
        proof {
            reveal(Seq::filter);
            assert(all.take(i as int + 1).drop_last() =~= all.take(i as int));
            assert(all.take(i as int + 1).last() == tags@[i as int]@);
            lemma_position(marks, LinkView { task_id: task_id@, tag_id: tags@[i as int]@.id });
        }
        if find_link(links, task_id, tags[i].id.as_str()).is_some() {
            out.push(tags[i].clone());
            proof {
                assert(tag_views(out@) =~= tag_views(before).push(tags@[i as int]@));
            }
        }
        i += 1;
    }
    assert(all.take(tags@.len() as int) =~= all);
    out
}

/// A copy of a list of users.
fn clone_users(users: &Vec<User>) -> (r: Vec<User>)
    ensures
        user_views(r@) == user_views(users@),
{
    let mut out: Vec<User> = Vec::new();
    let mut i: usize = 0;
    while i < users.len()
        invariant
            i <= users.len(),
            out@.len() == i,
            forall|k: int| 0 <= k < i ==> (#[trigger] out@[k])@ == users@[k]@,
        decreases users.len() - i,
    {
        out.push(users[i].clone());
        i += 1;
    }
    assert(user_views(out@) =~= user_views(users@));
    out
}

/// The four tables.
struct Tables {
    users: Vec<User>,
    tags: Vec<Tag>,
    tasks: Vec<Task>,
    links: Vec<Link>,
}

impl View for Tables {
    type V = StoreView;

    closed spec fn view(&self) -> StoreView {
        StoreView {
            users: user_views(self.users@),
            tags: tag_views(self.tags@),
            tasks: task_views(self.tasks@),
            links: link_views(self.links@),
        }
    }
}

impl Tables {
    fn new() -> (r: Tables)
        ensures
            r@ == StoreView::empty(),
            r@.wf(),
    {
        let r = Tables { users: Vec::new(), tags: Vec::new(), tasks: Vec::new(), links: Vec::new() };
        proof {
            assert(r@.users =~= Seq::empty());
            assert(r@.tags =~= Seq::empty());
            assert(r@.tasks =~= Seq::empty());
            assert(r@.links =~= Seq::empty());
        }
        r
    }

    /// The task row at place `i` with its tags filled in.
    fn task_with_tags(&self, i: usize) -> (r: Task)
        requires
            i < self@.tasks.len(),
        ensures
            r@ == self@.task_with_tags(i as int),
    {
        let mut task = self.tasks[i].clone();
        task.tags = tags_marked(&self.tags, &self.links, self.tasks[i].id.as_str());
        task
    }

    fn get_user_by_id(&self, id: &str) -> (r: Result<User, RepositoryError>)
        ensures
            match self@.get_user_by_id(id@) {
                Ok(v) => r matches Ok(u) && u@ == v,
                Err(f) => r matches Err(e) && e@ == f,
            },
    {
        match find_user(&self.users, id) {
            Some(i) => Ok(self.users[i].clone()),
            None => Err(RepositoryError::user_not_found(id)),
        }
    }

    fn create_user(&mut self, user: &User) -> (r: Result<(), RepositoryError>)
        requires
            old(self)@.wf(),
        ensures
            (final(self)@, outcome_view(r)) == old(self)@.create_user(user@),
            final(self)@.wf(),
    {
        proof {
            lemma_create_user_wf(self@, user@);
        }
        if find_user(&self.users, user.id.as_str()).is_some() {
            return Err(RepositoryError::Database("UNIQUE constraint failed: users.id".to_owned()));
        }
        if find_email(&self.users, user.email.as_str()).is_some() {
            return Err(
                RepositoryError::Database("UNIQUE constraint failed: users.email".to_owned()),
            );
        }
        self.users.push(user.clone());
        proof {
            assert(user_views(self.users@) =~= old(self)@.users.push(user@));
        }
        Ok(())
    }

    fn update_user(&mut self, user: &User) -> (r: Result<(), RepositoryError>)
        requires
            old(self)@.wf(),
        ensures
            (final(self)@, outcome_view(r)) == old(self)@.update_user(user@),
            final(self)@.wf(),
    {
        proof {
            lemma_update_user_wf(self@, user@);
        }
        let i = match find_user(&self.users, user.id.as_str()) {
            Some(i) => i,
            None => return Err(RepositoryError::user_not_found(user.id.as_str())),
        };
        let taken = match find_email(&self.users, user.email.as_str()) {
            Some(j) => j != i,
            None => false,
        };
        if taken {
            return Err(
                RepositoryError::Database("UNIQUE constraint failed: users.email".to_owned()),
            );
        }
        proof {
            lemma_position(user_ids(self@.users), user@.id);
        }
        self.users.set(i, user.clone());
        proof {
            assert(user_views(self.users@) =~= old(self)@.users.update(i as int, user@));
        }
        Ok(())
    }

    fn delete_user(&mut self, id: &str) -> (r: Result<(), RepositoryError>)
        requires
            old(self)@.wf(),
        ensures
            (final(self)@, outcome_view(r)) == old(self)@.delete_user(id@),
            final(self)@.wf(),
    {
        proof {
            lemma_delete_user_wf(self@, id@);
        }
        let i = match find_user(&self.users, id) {
            Some(i) => i,
            None => return Err(RepositoryError::user_not_found(id)),
        };
        proof {
            lemma_position(user_ids(self@.users), id@);
        }
        let _ = self.users.remove(i);
        proof {
            assert(user_views(self.users@) =~= old(self)@.users.remove(i as int));
        }
        Ok(())
    }

    fn get_tasks(&self) -> (r: Vec<Task>)
        ensures
            task_views(r@) == self@.all_tasks(),
    {
        let mut out: Vec<Task> = Vec::new();
        let mut i: usize = 0;
        while i < self.tasks.len()
            invariant
                i <= self.tasks.len(),
                out@.len() == i,
                forall|k: int| 0 <= k < i ==> (#[trigger] out@[k])@ == self@.task_with_tags(k),
            decreases self.tasks.len() - i,
        {
            out.push(self.task_with_tags(i));
            i += 1;
        }
        assert(task_views(out@) =~= self@.all_tasks());
        out
    }

    fn get_task_by_id(&self, id: &str) -> (r: Result<Task, RepositoryError>)
        ensures
            match self@.get_task_by_id(id@) {
                Ok(v) => r matches Ok(t) && t@ == v,
                Err(f) => r matches Err(e) && e@ == f,
            },
    {
        match find_task(&self.tasks, id) {
            Some(i) => {
                proof {
                    lemma_position(task_ids(self@.tasks), id@);
                }
                Ok(self.task_with_tags(i))
            },
            None => Err(RepositoryError::task_not_found(id)),
        }
    }

    fn create_task(&mut self, task: &Task) -> (r: Result<(), RepositoryError>)
        requires
            old(self)@.wf(),
        ensures
            (final(self)@, outcome_view(r)) == old(self)@.create_task(task@),
            final(self)@.wf(),
    {
        proof {
            lemma_create_task_wf(self@, task@);
        }
        if find_user(&self.users, task.customer_id.as_str()).is_none() {
            return Err(RepositoryError::user_not_found(task.customer_id.as_str()));
        }
        if find_user(&self.users, task.executor_id.as_str()).is_none() {
            return Err(RepositoryError::user_not_found(task.executor_id.as_str()));
        }
        if find_task(&self.tasks, task.id.as_str()).is_some() {
            return Err(RepositoryError::Database("UNIQUE constraint failed: tasks.id".to_owned()));
        }
        match find_missing(&self.tags, &task.tags) {
            Some(k) => {
                assert(task@.tags[k as int].id == task.tags@[k as int].id@);
                return Err(RepositoryError::tag_not_found(task.tags[k].id.as_str()));
            },
            None => {},
        }
        let mut row = task.clone();
        row.tags = Vec::new();
        proof {
            assert(row@.tags =~= Seq::<TagView>::empty());
            assert(row@ == row_of(task@));
        }
        self.tasks.push(row);
        proof {
            assert(task_views(self.tasks@) =~= old(self)@.tasks.push(row_of(task@)));
        }
        let mut links: Vec<Link> = Vec::new();
        std::mem::swap(&mut self.links, &mut links);
        self.links = links_with(links, task.id.as_str(), &task.tags);
        Ok(())
    }

    fn update_task(&mut self, task: &Task) -> (r: Result<(), RepositoryError>)
        requires
            old(self)@.wf(),
        ensures
            (final(self)@, outcome_view(r)) == old(self)@.update_task(task@),
            final(self)@.wf(),
    {
        proof {
            lemma_update_task_wf(self@, task@);
        }
        let i = match find_task(&self.tasks, task.id.as_str()) {
            Some(i) => i,
            None => return Err(RepositoryError::task_not_found(task.id.as_str())),
        };
        if find_user(&self.users, task.customer_id.as_str()).is_none() {
            return Err(RepositoryError::user_not_found(task.customer_id.as_str()));
        }
        if find_user(&self.users, task.executor_id.as_str()).is_none() {
            return Err(RepositoryError::user_not_found(task.executor_id.as_str()));
        }
        match find_missing(&self.tags, &task.tags) {
            Some(k) => {
                assert(task@.tags[k as int].id == task.tags@[k as int].id@);
                return Err(RepositoryError::tag_not_found(task.tags[k].id.as_str()));
            },
            None => {},
        }
        proof {
            lemma_position(task_ids(self@.tasks), task@.id);
        }
        let mut row = task.clone();
        row.tags = Vec::new();
        row.created_at = self.tasks[i].created_at;
        let ghost new_row = TaskView {
            created_at: self@.tasks[i as int].created_at,
            ..row_of(task@)
        };
        proof {
            assert(row@.tags =~= Seq::<TagView>::empty());
            assert(row@ == new_row);
        }
        self.tasks.set(i, row);
        proof {
            assert(task_views(self.tasks@) =~= old(self)@.tasks.update(i as int, new_row));
        }
        let kept = links_without(&self.links, task.id.as_str());
        self.links = links_with(kept, task.id.as_str(), &task.tags);
        Ok(())
    }

    fn delete_task(&mut self, id: &str) -> (r: Result<(), RepositoryError>)
        requires
            old(self)@.wf(),
        ensures
            (final(self)@, outcome_view(r)) == old(self)@.delete_task(id@),
            final(self)@.wf(),
    {
        proof {
            lemma_delete_task_wf(self@, id@);
        }
        let i = match find_task(&self.tasks, id) {
            Some(i) => i,
            None => return Err(RepositoryError::task_not_found(id)),
        };
        proof {
            lemma_position(task_ids(self@.tasks), id@);
        }
        self.links = links_without(&self.links, id);
        let _ = self.tasks.remove(i);
        proof {
            assert(task_views(self.tasks@) =~= old(self)@.tasks.remove(i as int));
        }
        Ok(())
    }

    fn get_tag_by_id(&self, id: &str) -> (r: Result<Tag, RepositoryError>)
        ensures
            match self@.get_tag_by_id(id@) {
                Ok(v) => r matches Ok(t) && t@ == v,
                Err(f) => r matches Err(e) && e@ == f,
            },
    {
        match find_tag(&self.tags, id) {
            Some(i) => {
                proof {
                    lemma_position(tag_ids(self@.tags), id@);
                }
                Ok(self.tags[i].clone())
            },
            None => Err(RepositoryError::tag_not_found(id)),
        }
    }

    fn create_tag(&mut self, tag: &Tag) -> (r: Result<(), RepositoryError>)
        requires
            old(self)@.wf(),
        ensures
            (final(self)@, outcome_view(r)) == old(self)@.create_tag(tag@),
            final(self)@.wf(),
    {
        proof {
            lemma_create_tag_wf(self@, tag@);
        }
        if find_tag(&self.tags, tag.id.as_str()).is_some() {
            return Err(RepositoryError::Database("UNIQUE constraint failed: tags.id".to_owned()));
        }
        if find_tag_named(&self.tags, tag.name.as_str()).is_some() {
            return Err(RepositoryError::Database("UNIQUE constraint failed: tags.name".to_owned()));
        }
        self.tags.push(tag.clone());
        proof {
            assert(tag_views(self.tags@) =~= old(self)@.tags.push(tag@));
        }
        Ok(())
    }

    fn add_tag_to_task(&mut self, task_id: &str, tag_id: &str) -> (r: Result<(), RepositoryError>)
        requires
            old(self)@.wf(),
        ensures
            (final(self)@, outcome_view(r)) == old(self)@.add_tag_to_task(task_id@, tag_id@),
            final(self)@.wf(),
    {
        proof {
            lemma_add_tag_to_task_wf(self@, task_id@, tag_id@);
        }
        if find_task(&self.tasks, task_id).is_none() {
            return Err(RepositoryError::task_not_found(task_id));
        }
        let tag = match find_tag(&self.tags, tag_id) {
            Some(k) => k,
            None => return Err(RepositoryError::tag_not_found(tag_id)),
        };
        let mut one: Vec<Tag> = Vec::new();
        one.push(self.tags[tag].clone());
        proof {
            lemma_position(tag_ids(self@.tags), tag_id@);
            assert(tag_ids(tag_views(one@)) =~= seq![tag_id@]);
        }
        let mut links: Vec<Link> = Vec::new();
        std::mem::swap(&mut self.links, &mut links);
        self.links = links_with(links, task_id, &one);
        Ok(())
    }

    fn remove_tag_from_task(&mut self, task_id: &str, tag_id: &str) -> (r: Result<
        (),
        RepositoryError,
    >)
        requires
            old(self)@.wf(),
        ensures
            (final(self)@, outcome_view(r)) == old(self)@.remove_tag_from_task(task_id@, tag_id@),
            final(self)@.wf(),
    {
        proof {
            lemma_remove_tag_from_task_wf(self@, task_id@, tag_id@);
        }
        let i = match find_link(&self.links, task_id, tag_id) {
            Some(i) => i,
            None => return Err(RepositoryError::link_not_found(task_id, tag_id)),
        };
        let _ = self.links.remove(i);
        proof {
            assert(link_views(self.links@) =~= old(self)@.links.remove(i as int));
        }
        Ok(())
    }
}

/// The repository in memory. What it stores always keeps the constraints of
/// the store.
pub struct MemoryRepository {
    tables: Tables,
}

impl View for MemoryRepository {
    type V = StoreView;

    closed spec fn view(&self) -> StoreView {
        self.tables@
    }
}

impl MemoryRepository {
    #[verifier::type_invariant]
    spec fn constraints_hold(self) -> bool {
        self@.wf()
    }

    /// A repository that stores nothing yet.
    pub fn new() -> (r: MemoryRepository)
        ensures
            r@ == StoreView::empty(),
            r@.wf(),
    {
        MemoryRepository { tables: Tables::new() }
    }

    /// What the repository stores keeps the constraints of the store.
    pub fn check(&self)
        ensures
            self@.wf(),
    {
        proof {
            use_type_invariant(self);
        }
    }
}

impl Repository for MemoryRepository {
    open spec fn lists_users(&self, answer: Result<Seq<UserView>, RepositoryErrorView>) -> bool {
        answer == Ok::<Seq<UserView>, RepositoryErrorView>(self@.users)
    }

    open spec fn finds_user(
        &self,
        id: Seq<char>,
        answer: Result<UserView, RepositoryErrorView>,
    ) -> bool {
        answer == self@.get_user_by_id(id)
    }

    open spec fn creates_user(
        &self,
        user: UserView,
        after: &Self,
        outcome: Result<(), RepositoryErrorView>,
    ) -> bool {
        (after@, outcome) == self@.create_user(user)
    }

    open spec fn updates_user(
        &self,
        user: UserView,
        after: &Self,
        outcome: Result<(), RepositoryErrorView>,
    ) -> bool {
        (after@, outcome) == self@.update_user(user)
    }

    open spec fn deletes_user(
        &self,
        id: Seq<char>,
        after: &Self,
        outcome: Result<(), RepositoryErrorView>,
    ) -> bool {
        (after@, outcome) == self@.delete_user(id)
    }

    open spec fn lists_tasks(&self, answer: Result<Seq<TaskView>, RepositoryErrorView>) -> bool {
        answer == Ok::<Seq<TaskView>, RepositoryErrorView>(self@.all_tasks())
    }

    open spec fn finds_task(
        &self,
        id: Seq<char>,
        answer: Result<TaskView, RepositoryErrorView>,
    ) -> bool {
        answer == self@.get_task_by_id(id)
    }

    open spec fn creates_task(
        &self,
        task: TaskView,
        after: &Self,
        outcome: Result<(), RepositoryErrorView>,
    ) -> bool {
        (after@, outcome) == self@.create_task(task)
    }

    open spec fn updates_task(
        &self,
        task: TaskView,
        after: &Self,
        outcome: Result<(), RepositoryErrorView>,
    ) -> bool {
        (after@, outcome) == self@.update_task(task)
    }

    open spec fn deletes_task(
        &self,
        id: Seq<char>,
        after: &Self,
        outcome: Result<(), RepositoryErrorView>,
    ) -> bool {
        (after@, outcome) == self@.delete_task(id)
    }

    open spec fn lists_tags(&self, answer: Result<Seq<TagView>, RepositoryErrorView>) -> bool {
        answer == Ok::<Seq<TagView>, RepositoryErrorView>(self@.tags)
    }

    open spec fn finds_tag(
        &self,
        id: Seq<char>,
        answer: Result<TagView, RepositoryErrorView>,
    ) -> bool {
        answer == self@.get_tag_by_id(id)
    }

    open spec fn creates_tag(
        &self,
        tag: TagView,
        after: &Self,
        outcome: Result<(), RepositoryErrorView>,
    ) -> bool {
        (after@, outcome) == self@.create_tag(tag)
    }

    open spec fn lists_tags_of(
        &self,
        task_id: Seq<char>,
        answer: Result<Seq<TagView>, RepositoryErrorView>,
    ) -> bool {
        answer == Ok::<Seq<TagView>, RepositoryErrorView>(self@.tags_of(task_id))
    }

    open spec fn adds_tag(
        &self,
        task_id: Seq<char>,
        tag_id: Seq<char>,
        after: &Self,
        outcome: Result<(), RepositoryErrorView>,
    ) -> bool {
        (after@, outcome) == self@.add_tag_to_task(task_id, tag_id)
    }

    open spec fn removes_tag(
        &self,
        task_id: Seq<char>,
        tag_id: Seq<char>,
        after: &Self,
        outcome: Result<(), RepositoryErrorView>,
    ) -> bool {
        (after@, outcome) == self@.remove_tag_from_task(task_id, tag_id)
    }

    fn get_users(&self) -> (r: Result<Vec<User>, RepositoryError>)
        ensures
            r matches Ok(users) && user_views(users@) == self@.users,
            self@.wf(),
    {
        proof {
            use_type_invariant(self);
        }
        Ok(clone_users(&self.tables.users))
    }

    fn get_user_by_id(&self, id: &str) -> (r: Result<User, RepositoryError>)
        ensures
            match self@.get_user_by_id(id@) {
                Ok(v) => r matches Ok(u) && u@ == v,
                Err(f) => r matches Err(e) && e@ == f,
            },
            self@.wf(),
    {
        proof {
            use_type_invariant(self);
        }
        self.tables.get_user_by_id(id)
    }

    fn create_user(&mut self, user: &User) -> (r: Result<(), RepositoryError>)
        ensures
            (final(self)@, outcome_view(r)) == old(self)@.create_user(user@),
            old(self)@.wf(),
            final(self)@.wf(),
    {
        proof {
            use_type_invariant(&*self);
        }
        let mut tables = Tables::new();
        std::mem::swap(&mut self.tables, &mut tables);
        let r = tables.create_user(user);
        std::mem::swap(&mut self.tables, &mut tables);
        r
    }

    fn update_user(&mut self, user: &User) -> (r: Result<(), RepositoryError>)
        ensures
            (final(self)@, outcome_view(r)) == old(self)@.update_user(user@),
            old(self)@.wf(),
            final(self)@.wf(),
    {
        proof {
            use_type_invariant(&*self);
        }
        let mut tables = Tables::new();
        std::mem::swap(&mut self.tables, &mut tables);
        let r = tables.update_user(user);
        std::mem::swap(&mut self.tables, &mut tables);
        r
    }

    fn delete_user(&mut self, id: &str) -> (r: Result<(), RepositoryError>)
        ensures
            (final(self)@, outcome_view(r)) == old(self)@.delete_user(id@),
            old(self)@.wf(),
            final(self)@.wf(),
    {
        proof {
            use_type_invariant(&*self);
        }
        let mut tables = Tables::new();
        std::mem::swap(&mut self.tables, &mut tables);
        let r = tables.delete_user(id);
        std::mem::swap(&mut self.tables, &mut tables);
        r
    }

    fn get_tasks(&self) -> (r: Result<Vec<Task>, RepositoryError>)
        ensures
            r matches Ok(tasks) && task_views(tasks@) == self@.all_tasks(),
            self@.wf(),
    {
        proof {
            use_type_invariant(self);
        }
        Ok(self.tables.get_tasks())
    }

    fn get_task_by_id(&self, id: &str) -> (r: Result<Task, RepositoryError>)
        ensures
            match self@.get_task_by_id(id@) {
                Ok(v) => r matches Ok(t) && t@ == v,
                Err(f) => r matches Err(e) && e@ == f,
            },
            self@.wf(),
    {
        proof {
            use_type_invariant(self);
        }
        self.tables.get_task_by_id(id)
    }

    fn create_task(&mut self, task: &Task) -> (r: Result<(), RepositoryError>)
        ensures
            (final(self)@, outcome_view(r)) == old(self)@.create_task(task@),
            old(self)@.wf(),
            final(self)@.wf(),
    {
        proof {
            use_type_invariant(&*self);
        }
        let mut tables = Tables::new();
        std::mem::swap(&mut self.tables, &mut tables);
        let r = tables.create_task(task);
        std::mem::swap(&mut self.tables, &mut tables);
        proof {
            lemma_first_missing(tag_ids(old(self)@.tags), tag_ids(task@.tags));
        }
        r
    }

    fn update_task(&mut self, task: &Task) -> (r: Result<(), RepositoryError>)
        ensures
            (final(self)@, outcome_view(r)) == old(self)@.update_task(task@),
            old(self)@.wf(),
            final(self)@.wf(),
    {
        proof {
            use_type_invariant(&*self);
        }
        let mut tables = Tables::new();
        std::mem::swap(&mut self.tables, &mut tables);
        let r = tables.update_task(task);
        std::mem::swap(&mut self.tables, &mut tables);
        proof {
            lemma_first_missing(tag_ids(old(self)@.tags), tag_ids(task@.tags));
        }
        r
    }

    fn delete_task(&mut self, id: &str) -> (r: Result<(), RepositoryError>)
        ensures
            (final(self)@, outcome_view(r)) == old(self)@.delete_task(id@),
            old(self)@.wf(),
            final(self)@.wf(),
    {
        proof {
            use_type_invariant(&*self);
        }
        let mut tables = Tables::new();
        std::mem::swap(&mut self.tables, &mut tables);
        let r = tables.delete_task(id);
        std::mem::swap(&mut self.tables, &mut tables);
        r
    }

    fn get_tags(&self) -> (r: Result<Vec<Tag>, RepositoryError>)
        ensures
            r matches Ok(tags) && tag_views(tags@) == self@.tags,
            self@.wf(),
    {
        proof {
            use_type_invariant(self);
        }
        Ok(clone_tags(&self.tables.tags))
    }

    fn get_tag_by_id(&self, id: &str) -> (r: Result<Tag, RepositoryError>)
        ensures
            match self@.get_tag_by_id(id@) {
                Ok(v) => r matches Ok(t) && t@ == v,
                Err(f) => r matches Err(e) && e@ == f,
            },
            self@.wf(),
    {
        proof {
            use_type_invariant(self);
        }
        self.tables.get_tag_by_id(id)
    }

    fn create_tag(&mut self, tag: &Tag) -> (r: Result<(), RepositoryError>)
        ensures
            (final(self)@, outcome_view(r)) == old(self)@.create_tag(tag@),
            old(self)@.wf(),
            final(self)@.wf(),
    {
        proof {
            use_type_invariant(&*self);
        }
        let mut tables = Tables::new();
        std::mem::swap(&mut self.tables, &mut tables);
        let r = tables.create_tag(tag);
        std::mem::swap(&mut self.tables, &mut tables);
        r
    }

    fn get_tags_for_task(&self, task_id: &str) -> (r: Result<Vec<Tag>, RepositoryError>)
        ensures
            r matches Ok(tags) && tag_views(tags@) == self@.tags_of(task_id@),
            self@.wf(),
    {
        proof {
            use_type_invariant(self);
        }
        Ok(tags_marked(&self.tables.tags, &self.tables.links, task_id))
    }

    fn add_tag_to_task(&mut self, task_id: &str, tag_id: &str) -> (r: Result<
        (),
        RepositoryError,
    >)
        ensures
            (final(self)@, outcome_view(r)) == old(self)@.add_tag_to_task(task_id@, tag_id@),
            old(self)@.wf(),
            final(self)@.wf(),
    {
        proof {
            use_type_invariant(&*self);
        }
        let mut tables = Tables::new();
        std::mem::swap(&mut self.tables, &mut tables);
        let r = tables.add_tag_to_task(task_id, tag_id);
        std::mem::swap(&mut self.tables, &mut tables);
        r
    }

    fn remove_tag_from_task(&mut self, task_id: &str, tag_id: &str) -> (r: Result<
        (),
        RepositoryError,
    >)
        ensures
            (final(self)@, outcome_view(r)) == old(self)@.remove_tag_from_task(task_id@, tag_id@),
            old(self)@.wf(),
            final(self)@.wf(),
    {
        proof {
            use_type_invariant(&*self);
        }
        let mut tables = Tables::new();
        std::mem::swap(&mut self.tables, &mut tables);
        let r = tables.remove_tag_from_task(task_id, tag_id);
        std::mem::swap(&mut self.tables, &mut tables);
        r
    }
}

} // verus!
