//! What holds of the store model, and so of the repository in memory: each
//! write keeps the constraints, and what was written is what is read.
//!
//! Nothing here is proved of the repository on SQLite: what a database holds
//! is beyond what its contracts state, and nothing ties it to the store model.

use super::error::{task_not_found, user_not_found, RepositoryErrorView};
use super::lemmas::{
    lemma_filter, lemma_push_no_duplicates, lemma_remove_no_duplicates, lemma_unique_position,
    lemma_with_links, lemma_without_task,
};
use super::model::{
    first_at, lemma_first_missing, lemma_position, lemma_position_is, lemma_position_of_member,
    marked_tags, row_of, tag_ids, tag_names, task_ids, user_emails, user_ids, with_links,
    without_task, LinkView, StoreView,
};
use crate::models::tag::TagView;
use crate::models::task::TaskView;
use crate::models::user::UserView;
use vstd::prelude::*;

verus! {

/// The empty store keeps the constraints.
pub proof fn lemma_empty_wf()
    ensures
        StoreView::empty().wf(),
{
}

/// Creating a user keeps the constraints.
pub proof fn lemma_create_user_wf(s: StoreView, u: UserView)
    requires
        s.wf(),
    ensures
        s.create_user(u).0.wf(),
{
    if s.create_user(u).1 is Ok {
        lemma_position(user_ids(s.users), u.id);
        lemma_position(user_emails(s.users), u.email);
        lemma_push_no_duplicates(user_ids(s.users), u.id);
        lemma_push_no_duplicates(user_emails(s.users), u.email);
        assert(user_ids(s.users.push(u)) =~= user_ids(s.users).push(u.id));
        assert(user_emails(s.users.push(u)) =~= user_emails(s.users).push(u.email));
    }
}

/// Updating a user keeps the constraints.
pub proof fn lemma_update_user_wf(s: StoreView, u: UserView)
    requires
        s.wf(),
    ensures
        s.update_user(u).0.wf(),
{
    if s.update_user(u).1 is Ok {
        let i = s.user_at(u.id)->0;
        let ids = user_ids(s.users);
        let emails = user_emails(s.users);
        lemma_position(ids, u.id);
        assert(user_ids(s.users.update(i, u)) =~= ids);
        let after = user_emails(s.users.update(i, u));
        assert(after =~= emails.update(i, u.email));
        assert forall|a: int, b: int|
            0 <= a < after.len() && 0 <= b < after.len() && a != b implies after[a]
            != after[b] by {
            if a == i {
                if emails[b] == u.email {
                    lemma_position_of_member(emails, u.email, b);
                    lemma_unique_position(emails, b);
                }
            } else if b == i {
                if emails[a] == u.email {
                    lemma_position_of_member(emails, u.email, a);
                    lemma_unique_position(emails, a);
                }
            }
        }
    }
}

/// Deleting a user keeps the constraints.
pub proof fn lemma_delete_user_wf(s: StoreView, id: Seq<char>)
    requires
        s.wf(),
    ensures
        s.delete_user(id).0.wf(),
{
    if s.delete_user(id).1 is Ok {
        let i = s.user_at(id)->0;
        lemma_position(user_ids(s.users), id);
        lemma_remove_no_duplicates(user_ids(s.users), i);
        lemma_remove_no_duplicates(user_emails(s.users), i);
        assert(user_ids(s.users.remove(i)) =~= user_ids(s.users).remove(i));
        assert(user_emails(s.users.remove(i)) =~= user_emails(s.users).remove(i));
    }
}

/// Creating a tag keeps the constraints: no name comes to stand in two rows.
pub proof fn lemma_create_tag_wf(s: StoreView, t: TagView)
    requires
        s.wf(),
    ensures
        s.create_tag(t).0.wf(),
{
    if s.create_tag(t).1 is Ok {
        let after = s.create_tag(t).0;
        lemma_position(tag_ids(s.tags), t.id);
        lemma_position(tag_names(s.tags), t.name);
        lemma_push_no_duplicates(tag_ids(s.tags), t.id);
        lemma_push_no_duplicates(tag_names(s.tags), t.name);
        assert(tag_ids(s.tags.push(t)) =~= tag_ids(s.tags).push(t.id));
        assert(tag_names(s.tags.push(t)) =~= tag_names(s.tags).push(t.name));
        assert forall|l: LinkView| #[trigger] after.links.contains(l) implies tag_ids(
            after.tags,
        ).contains(l.tag_id) by {
            let k = choose|k: int| 0 <= k < s.tags.len() && tag_ids(s.tags)[k] == l.tag_id;
            assert(tag_ids(after.tags)[k] == l.tag_id);
        }
    }
}

/// Marking a task with a tag keeps the constraints: no mark comes to stand in
/// two rows.
pub proof fn lemma_add_tag_to_task_wf(s: StoreView, task_id: Seq<char>, tag_id: Seq<char>)
    requires
        s.wf(),
    ensures
        s.add_tag_to_task(task_id, tag_id).0.wf(),
{
    if s.add_tag_to_task(task_id, tag_id).1 is Ok {
        lemma_with_links(s.links, task_id, seq![tag_id]);
        lemma_position(task_ids(s.tasks), task_id);
        lemma_position(tag_ids(s.tags), tag_id);
        assert forall|x: Seq<char>| seq![tag_id].contains(x) implies x == tag_id by {
            let k = choose|k: int| 0 <= k < seq![tag_id].len() && seq![tag_id][k] == x;
        }
    }
}

/// Taking a tag off a task keeps the constraints.
pub proof fn lemma_remove_tag_from_task_wf(s: StoreView, task_id: Seq<char>, tag_id: Seq<char>)
    requires
        s.wf(),
    ensures
        s.remove_tag_from_task(task_id, tag_id).0.wf(),
{
    if s.remove_tag_from_task(task_id, tag_id).1 is Ok {
        let i = s.link_at(task_id, tag_id)->0;
        let after = s.remove_tag_from_task(task_id, tag_id).0;
        lemma_position(s.links, LinkView { task_id, tag_id });
        lemma_remove_no_duplicates(s.links, i);
        assert forall|l: LinkView| #[trigger] after.links.contains(l) implies s.links.contains(
            l,
        ) by {
            if l == s.links[i] {
                assert(!s.links.remove(i).contains(s.links[i]));
            }
        }
    }
}

/// Where no tag of a task is missing, every one of its tags is stored.
pub proof fn lemma_tags_stored(s: StoreView, t: TaskView)
    requires
        s.missing_tag(t) is None,
    ensures
        forall|x: Seq<char>| tag_ids(t.tags).contains(x) ==> tag_ids(s.tags).contains(x),
{
    lemma_first_missing(tag_ids(s.tags), tag_ids(t.tags));
    assert forall|x: Seq<char>| tag_ids(t.tags).contains(x) implies tag_ids(s.tags).contains(
        x,
    ) by {
        let k = choose|k: int| 0 <= k < tag_ids(t.tags).len() && tag_ids(t.tags)[k] == x;
        assert(tag_ids(s.tags).contains(tag_ids(t.tags)[k]));
    }
}

/// Creating a task keeps the constraints.
pub proof fn lemma_create_task_wf(s: StoreView, t: TaskView)
    requires
        s.wf(),
    ensures
        s.create_task(t).0.wf(),
{
    if s.create_task(t).1 is Ok {
        let after = s.create_task(t).0;
        lemma_position(task_ids(s.tasks), t.id);
        lemma_push_no_duplicates(task_ids(s.tasks), t.id);
        assert(task_ids(s.tasks.push(row_of(t))) =~= task_ids(s.tasks).push(t.id));
        lemma_with_links(s.links, t.id, tag_ids(t.tags));
        lemma_tags_stored(s, t);
        assert(task_ids(after.tasks)[s.tasks.len() as int] == t.id);
        assert forall|l: LinkView| #[trigger] after.links.contains(l) implies task_ids(
            after.tasks,
        ).contains(l.task_id) by {
            if s.links.contains(l) {
                let k = choose|k: int| 0 <= k < s.tasks.len() && task_ids(s.tasks)[k] == l.task_id;
                assert(task_ids(after.tasks)[k] == l.task_id);
            }
        }
    }
}

/// Updating a task keeps the constraints.
pub proof fn lemma_update_task_wf(s: StoreView, t: TaskView)
    requires
        s.wf(),
    ensures
        s.update_task(t).0.wf(),
{
    if s.update_task(t).1 is Ok {
        let after = s.update_task(t).0;
        let i = s.task_at(t.id)->0;
        lemma_position(task_ids(s.tasks), t.id);
        assert(task_ids(after.tasks) =~= task_ids(s.tasks));
        lemma_without_task(s.links, t.id);
        lemma_with_links(without_task(s.links, t.id), t.id, tag_ids(t.tags));
        lemma_tags_stored(s, t);
    }
}

/// Deleting a task keeps the constraints: no mark is left without its task.
pub proof fn lemma_delete_task_wf(s: StoreView, id: Seq<char>)
    requires
        s.wf(),
    ensures
        s.delete_task(id).0.wf(),
{
    if s.delete_task(id).1 is Ok {
        let after = s.delete_task(id).0;
        let i = s.task_at(id)->0;
        lemma_position(task_ids(s.tasks), id);
        lemma_remove_no_duplicates(task_ids(s.tasks), i);
        assert(task_ids(s.tasks.remove(i)) =~= task_ids(s.tasks).remove(i));
        lemma_without_task(s.links, id);
    }
}

/// The tags that a task is marked with are the stored tags whose mark is
/// there.
pub proof fn lemma_marked_tags(tags: Seq<TagView>, links: Seq<LinkView>, task_id: Seq<char>)
    ensures
        forall|t: TagView| #[trigger]
            marked_tags(tags, links, task_id).contains(t) <==> tags.contains(t) && links.contains(
                LinkView { task_id, tag_id: t.id },
            ),
{
    lemma_filter(tags, |t: TagView| links.contains(LinkView { task_id, tag_id: t.id }));
}

/// Whether every tag of the task is stored as the task holds it.
pub open spec fn tags_as_stored(s: StoreView, t: TaskView) -> bool {
    forall|i: int| 0 <= i < t.tags.len() ==> s.tags.contains(#[trigger] t.tags[i])
}

/// Whether `got` are exactly the tags `wanted`, whatever their order: the same
/// identifiers, each once and as the store holds it; and the same tags, where
/// the wanted ones are held as they are stored.
pub open spec fn same_tags(stored: Seq<TagView>, got: Seq<TagView>, wanted: Seq<TagView>) -> bool {
    &&& tag_ids(got).to_set() == tag_ids(wanted).to_set()
    &&& got.no_duplicates()
    &&& forall|k: int| 0 <= k < got.len() ==> stored.contains(#[trigger] got[k])
    &&& (forall|i: int| 0 <= i < wanted.len() ==> stored.contains(#[trigger] wanted[i]))
        ==> got.to_set() == wanted.to_set()
}

/// Where a task is marked with exactly the wanted tags and all of them are
/// stored, the join gives exactly the wanted tags.
pub proof fn lemma_join_gives_wanted(
    stored: Seq<TagView>,
    links: Seq<LinkView>,
    task_id: Seq<char>,
    wanted: Seq<TagView>,
)
    requires
        tag_ids(stored).no_duplicates(),
        forall|x: Seq<char>| #[trigger]
            links.contains(LinkView { task_id, tag_id: x }) <==> tag_ids(wanted).contains(x),
        forall|x: Seq<char>| tag_ids(wanted).contains(x) ==> tag_ids(stored).contains(x),
    ensures
        same_tags(stored, marked_tags(stored, links, task_id), wanted),
{
    let got = marked_tags(stored, links, task_id);
    lemma_marked_tags(stored, links, task_id);
    assert(stored.no_duplicates()) by {
        assert forall|a: int, b: int|
            0 <= a < stored.len() && 0 <= b < stored.len() && a != b implies stored[a]
            != stored[b] by {
            assert(tag_ids(stored)[a] != tag_ids(stored)[b]);
        }
    }
    lemma_filter(stored, |t: TagView| links.contains(LinkView { task_id, tag_id: t.id }));
    assert forall|k: int| 0 <= k < got.len() implies stored.contains(#[trigger] got[k]) by {
        assert(got.contains(got[k]));
    }
    assert forall|x: Seq<char>| tag_ids(got).to_set().contains(x) <==> tag_ids(
        wanted,
    ).to_set().contains(x) by {
        if tag_ids(got).contains(x) {
            let k = choose|k: int| 0 <= k < tag_ids(got).len() && tag_ids(got)[k] == x;
            assert(got.contains(got[k]));
            assert(links.contains(LinkView { task_id, tag_id: x }));
        }
        if tag_ids(wanted).contains(x) {
            let k = choose|k: int| 0 <= k < tag_ids(stored).len() && tag_ids(stored)[k] == x;
            assert(stored.contains(stored[k]));
            assert(links.contains(LinkView { task_id, tag_id: stored[k].id }));
            assert(got.contains(stored[k]));
            let g = choose|g: int| 0 <= g < got.len() && got[g] == stored[k];
            assert(tag_ids(got)[g] == x);
        }
    }
    assert(tag_ids(got).to_set() =~= tag_ids(wanted).to_set());
    if forall|i: int| 0 <= i < wanted.len() ==> stored.contains(#[trigger] wanted[i]) {
        assert forall|t: TagView| got.to_set().contains(t) <==> wanted.to_set().contains(t) by {
            if got.contains(t) {
                assert(links.contains(LinkView { task_id, tag_id: t.id }));
                let i = choose|i: int| 0 <= i < tag_ids(wanted).len() && tag_ids(wanted)[i] == t.id;
                assert(stored.contains(wanted[i]));
                let a = choose|a: int| 0 <= a < stored.len() && stored[a] == t;
                let b = choose|b: int| 0 <= b < stored.len() && stored[b] == wanted[i];
                assert(tag_ids(stored)[a] == tag_ids(stored)[b]);
                assert(wanted.contains(wanted[i]));
            }
            if wanted.contains(t) {
                let i = choose|i: int| 0 <= i < wanted.len() && wanted[i] == t;
                assert(stored.contains(wanted[i]));
                assert(tag_ids(wanted)[i] == t.id);
                assert(tag_ids(wanted).contains(t.id));
                assert(links.contains(LinkView { task_id, tag_id: t.id }));
            }
        }
        assert(got.to_set() =~= wanted.to_set());
    }
}

/// A task that was created is read back as it was given: every field of its
/// row, and exactly its tags, whatever their order.
pub proof fn lemma_created_task_reads_back(s: StoreView, t: TaskView)
    requires
        s.wf(),
        s.create_task(t).1 is Ok,
    ensures
        s.create_task(t).0.wf(),
        s.create_task(t).0.get_task_by_id(t.id) matches Ok(got) && row_of(got) == row_of(t)
            && same_tags(s.tags, got.tags, t.tags),
{
    let after = s.create_task(t).0;
    lemma_create_task_wf(s, t);
    lemma_position(task_ids(s.tasks), t.id);
    let keys = task_ids(after.tasks);
    let n = s.tasks.len() as int;
    assert(keys =~= task_ids(s.tasks).push(t.id));
    assert forall|j: int| 0 <= j < n implies keys[j] != t.id by {
        assert(task_ids(s.tasks)[j] == keys[j]);
        assert(task_ids(s.tasks).contains(task_ids(s.tasks)[j]));
    }
    assert(first_at(keys, t.id, n));
    lemma_position_is(keys, t.id, n);
    lemma_with_links(s.links, t.id, tag_ids(t.tags));
    lemma_tags_stored(s, t);
    assert forall|x: Seq<char>| #[trigger]
        after.links.contains(LinkView { task_id: t.id, tag_id: x }) <==> tag_ids(
            t.tags,
        ).contains(x) by {
        if s.links.contains(LinkView { task_id: t.id, tag_id: x }) {
            assert(task_ids(s.tasks).contains(t.id));
        }
    }
    lemma_join_gives_wanted(s.tags, after.links, t.id, t.tags);
}

/// After a task was updated with a list of tags, the tags of the task are
/// exactly those of the list, whatever their order and whatever the task was
/// marked with before.
pub proof fn lemma_updated_task_has_its_tags(s: StoreView, t: TaskView)
    requires
        s.wf(),
        s.update_task(t).1 is Ok,
    ensures
        s.update_task(t).0.wf(),
        same_tags(s.tags, s.update_task(t).0.tags_of(t.id), t.tags),
        s.update_task(t).0.get_task_by_id(t.id) matches Ok(got) && got.tags == s.update_task(
            t,
        ).0.tags_of(t.id) && row_of(got) == (TaskView {
            created_at: s.tasks[s.task_at(t.id)->0].created_at,
            ..row_of(t)
        }),
{
    let after = s.update_task(t).0;
    let i = s.task_at(t.id)->0;
    lemma_update_task_wf(s, t);
    lemma_position(task_ids(s.tasks), t.id);
    assert(task_ids(after.tasks) =~= task_ids(s.tasks));
    lemma_without_task(s.links, t.id);
    lemma_with_links(without_task(s.links, t.id), t.id, tag_ids(t.tags));
    lemma_tags_stored(s, t);
    assert forall|x: Seq<char>| #[trigger]
        after.links.contains(LinkView { task_id: t.id, tag_id: x }) <==> tag_ids(
            t.tags,
        ).contains(x) by {}
    lemma_join_gives_wanted(s.tags, after.links, t.id, t.tags);
}

/// A tag whose name is stored already is not stored again: the store stays as
/// it is, and the write fails.
pub proof fn lemma_tag_name_is_stored_once(s: StoreView, t: TagView)
    requires
        s.wf(),
        s.tag_named(t.name) is Some,
    ensures
        s.create_tag(t).0 == s,
        s.create_tag(t).1 is Err,
        tag_names(s.tags).no_duplicates(),
{
}

/// After a task was deleted it is gone, and so is every mark of it: no mark
/// names it, and the join for it is empty. Users and tags stay as they were.
pub proof fn lemma_deleted_task_leaves_no_marks(s: StoreView, id: Seq<char>)
    requires
        s.wf(),
        s.delete_task(id).1 is Ok,
    ensures
        s.delete_task(id).0.wf(),
        forall|l: LinkView| #[trigger] s.delete_task(id).0.links.contains(l) ==> l.task_id != id,
        s.delete_task(id).0.tags_of(id) == Seq::<TagView>::empty(),
        s.delete_task(id).0.get_task_by_id(id) == Err::<TaskView, RepositoryErrorView>(
            RepositoryErrorView::NotFound(task_not_found(id)),
        ),
        s.delete_task(id).0.users == s.users,
        s.delete_task(id).0.tags == s.tags,
{
    let after = s.delete_task(id).0;
    let i = s.task_at(id)->0;
    lemma_delete_task_wf(s, id);
    lemma_without_task(s.links, id);
    lemma_marked_tags(after.tags, after.links, id);
    let got = after.tags_of(id);
    if got.len() > 0 {
        assert(got.contains(got[0]));
    }
    assert(got =~= Seq::<TagView>::empty());
    lemma_position(task_ids(s.tasks), id);
    lemma_remove_no_duplicates(task_ids(s.tasks), i);
    assert(task_ids(after.tasks) =~= task_ids(s.tasks).remove(i));
    lemma_position(task_ids(after.tasks), id);
}

/// Updating or deleting what is not stored fails with not found and leaves
/// the store as it was.
pub proof fn lemma_missing_target_changes_nothing(
    s: StoreView,
    u: UserView,
    t: TaskView,
    user_id: Seq<char>,
    task_id: Seq<char>,
)
    ensures
        s.user_at(u.id) is None ==> s.update_user(u) == (
            s,
            Err::<(), RepositoryErrorView>(RepositoryErrorView::NotFound(user_not_found(u.id))),
        ),
        s.task_at(t.id) is None ==> s.update_task(t) == (
            s,
            Err::<(), RepositoryErrorView>(RepositoryErrorView::NotFound(task_not_found(t.id))),
        ),
        s.user_at(user_id) is None ==> s.delete_user(user_id) == (
            s,
            Err::<(), RepositoryErrorView>(RepositoryErrorView::NotFound(user_not_found(user_id))),
        ),
        s.task_at(task_id) is None ==> s.delete_task(task_id) == (
            s,
            Err::<(), RepositoryErrorView>(RepositoryErrorView::NotFound(task_not_found(task_id))),
        ),
{
}

/// A write that fails leaves the store as it was.
pub proof fn lemma_failed_write_changes_nothing(
    s: StoreView,
    u: UserView,
    g: TagView,
    t: TaskView,
    id: Seq<char>,
    tag_id: Seq<char>,
)
    ensures
        s.create_user(u).1 is Err ==> s.create_user(u).0 == s,
        s.update_user(u).1 is Err ==> s.update_user(u).0 == s,
        s.delete_user(id).1 is Err ==> s.delete_user(id).0 == s,
        s.create_tag(g).1 is Err ==> s.create_tag(g).0 == s,
        s.create_task(t).1 is Err ==> s.create_task(t).0 == s,
        s.update_task(t).1 is Err ==> s.update_task(t).0 == s,
        s.delete_task(id).1 is Err ==> s.delete_task(id).0 == s,
        s.add_tag_to_task(id, tag_id).1 is Err ==> s.add_tag_to_task(id, tag_id).0 == s,
        s.remove_tag_from_task(id, tag_id).1 is Err ==> s.remove_tag_from_task(id, tag_id).0 == s,
{
}

/// Marking a task with the same tag a second time succeeds and changes
/// nothing: the mark is there once.
pub proof fn lemma_add_tag_twice(s: StoreView, task_id: Seq<char>, tag_id: Seq<char>)
    requires
        s.wf(),
        s.add_tag_to_task(task_id, tag_id).1 is Ok,
    ensures
        ({
            let once = s.add_tag_to_task(task_id, tag_id).0;
            &&& once.wf()
            &&& once.has_link(task_id, tag_id)
            &&& once.links.no_duplicates()
            &&& once.add_tag_to_task(task_id, tag_id) == (once, Ok::<(), RepositoryErrorView>(()))
        }),
{
    let once = s.add_tag_to_task(task_id, tag_id).0;
    let link = LinkView { task_id, tag_id };
    lemma_add_tag_to_task_wf(s, task_id, tag_id);
    lemma_with_links(s.links, task_id, seq![tag_id]);
    assert(seq![tag_id][0] == tag_id);
    assert(seq![tag_id].contains(tag_id));
    assert(once.links.contains(link));
    assert(seq![tag_id].drop_last() =~= Seq::<Seq<char>>::empty());
    reveal_with_fuel(with_links, 2);
    assert(with_links(once.links, task_id, seq![tag_id]) == once.links);
}

} // verus!
