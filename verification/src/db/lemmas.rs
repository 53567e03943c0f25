//! Facts about rows and marks that the proofs of the store rest on.

use super::model::{first_at, position, with_links, without_task, LinkView};
use vstd::prelude::*;

verus! {

/// Pushing an element that does not occur keeps a sequence free of
/// duplicates.
pub proof fn lemma_push_no_duplicates<A>(s: Seq<A>, x: A)
    requires
        s.no_duplicates(),
        !s.contains(x),
    ensures
        s.push(x).no_duplicates(),
{
    assert forall|i: int, j: int|
        0 <= i < s.push(x).len() && 0 <= j < s.push(x).len() && i != j implies s.push(x)[i]
        != s.push(x)[j] by {
        if i < s.len() && j < s.len() {
        } else if i < s.len() {
            assert(s.contains(s[i]));
        } else {
            assert(s.contains(s[j]));
        }
    }
}

/// Removing an element keeps a sequence free of duplicates, and the removed
/// element no longer occurs.
pub proof fn lemma_remove_no_duplicates<A>(s: Seq<A>, i: int)
    requires
        s.no_duplicates(),
        0 <= i < s.len(),
    ensures
        s.remove(i).no_duplicates(),
        !s.remove(i).contains(s[i]),
        forall|x: A| x != s[i] ==> (s.remove(i).contains(x) <==> s.contains(x)),
{
    let r = s.remove(i);
    assert forall|a: int, b: int| 0 <= a < r.len() && 0 <= b < r.len() && a != b implies r[a]
        != r[b] by {
        let a0 = if a < i {
            a
        } else {
            a + 1
        };
        let b0 = if b < i {
            b
        } else {
            b + 1
        };
        assert(r[a] == s[a0] && r[b] == s[b0]);
    }
    if r.contains(s[i]) {
        let a = choose|a: int| 0 <= a < r.len() && r[a] == s[i];
        let a0 = if a < i {
            a
        } else {
            a + 1
        };
        assert(r[a] == s[a0]);
    }
    assert forall|x: A| x != s[i] implies (r.contains(x) <==> s.contains(x)) by {
        if r.contains(x) {
            let a = choose|a: int| 0 <= a < r.len() && r[a] == x;
            let a0 = if a < i {
                a
            } else {
                a + 1
            };
            assert(s[a0] == x);
        }
        if s.contains(x) {
            let a0 = choose|a: int| 0 <= a < s.len() && s[a] == x;
            let a = if a0 < i {
                a0
            } else {
                a0 - 1
            };
            assert(r[a] == x);
        }
    }
}

/// A filtered sequence holds exactly the elements that pass, and stays free
/// of duplicates.
pub proof fn lemma_filter<A>(s: Seq<A>, keep: spec_fn(A) -> bool)
    ensures
        forall|x: A| s.filter(keep).contains(x) <==> s.contains(x) && keep(x),
        s.no_duplicates() ==> s.filter(keep).no_duplicates(),
    decreases s.len(),
{
    reveal(Seq::filter);
    if s.len() > 0 {
        let rest = s.drop_last();
        let last = s.last();
        lemma_filter(rest, keep);
        assert(s =~= rest.push(last));
        assert forall|x: A| s.filter(keep).contains(x) <==> s.contains(x) && keep(x) by {
            if s.contains(x) {
                let i = choose|i: int| 0 <= i < s.len() && s[i] == x;
                if i < rest.len() {
                    assert(rest[i] == x);
                }
            }
            if rest.contains(x) {
                let i = choose|i: int| 0 <= i < rest.len() && rest[i] == x;
                assert(s[i] == x);
            }
            if keep(last) {
                let f = rest.filter(keep);
                assert(f.push(last)[f.len() as int] == last);
                if f.push(last).contains(x) && x != last {
                    let i = choose|i: int| 0 <= i < f.push(last).len() && f.push(last)[i] == x;
                    assert(f[i] == x);
                }
                if f.contains(x) {
                    let i = choose|i: int| 0 <= i < f.len() && f[i] == x;
                    assert(f.push(last)[i] == x);
                }
            }
            assert(s[s.len() - 1] == last);
        }
        if s.no_duplicates() {
            assert(rest.no_duplicates());
            if keep(last) {
                if rest.contains(last) {
                    let i = choose|i: int| 0 <= i < rest.len() && rest[i] == last;
                    assert(s[i] == s[s.len() - 1]);
                }
                lemma_push_no_duplicates(rest.filter(keep), last);
            }
        }
    }
}

/// The marks without those of a task: every other mark stays, none of the
/// task's does, and no mark comes to occur twice.
pub proof fn lemma_without_task(links: Seq<LinkView>, task_id: Seq<char>)
    ensures
        forall|l: LinkView| #[trigger]
            without_task(links, task_id).contains(l) <==> links.contains(l) && l.task_id
                != task_id,
        links.no_duplicates() ==> without_task(links, task_id).no_duplicates(),
{
    lemma_filter(links, |l: LinkView| l.task_id != task_id);
}

/// The marks with those of a task added: what was there stays, the task is
/// marked with exactly the given tags besides, and no mark comes to occur
/// twice.
pub proof fn lemma_with_links(links: Seq<LinkView>, task_id: Seq<char>, tags: Seq<Seq<char>>)
    ensures
        forall|l: LinkView| #[trigger]
            with_links(links, task_id, tags).contains(l) <==> links.contains(l) || (l.task_id
                == task_id && tags.contains(l.tag_id)),
        links.no_duplicates() ==> with_links(links, task_id, tags).no_duplicates(),
    decreases tags.len(),
{
    if tags.len() > 0 {
        let rest = tags.drop_last();
        let before = with_links(links, task_id, rest);
        let link = LinkView { task_id, tag_id: tags.last() };
        lemma_with_links(links, task_id, rest);
        let after = with_links(links, task_id, tags);
        assert forall|l: LinkView| #[trigger]
            after.contains(l) <==> links.contains(l) || (l.task_id == task_id && tags.contains(
                l.tag_id,
            )) by {
            assert(tags[tags.len() - 1] == tags.last());
            if rest.contains(l.tag_id) {
                let i = choose|i: int| 0 <= i < rest.len() && rest[i] == l.tag_id;
                assert(tags[i] == l.tag_id);
            }
            if tags.contains(l.tag_id) && l.tag_id != tags.last() {
                let i = choose|i: int| 0 <= i < tags.len() && tags[i] == l.tag_id;
                assert(rest[i] == l.tag_id);
            }
            if !before.contains(link) {
                assert(before.push(link)[before.len() as int] == link);
                if before.push(link).contains(l) && l != link {
                    let i = choose|i: int|
                        0 <= i < before.push(link).len() && before.push(link)[i] == l;
                    assert(before[i] == l);
                }
                if before.contains(l) {
                    let i = choose|i: int| 0 <= i < before.len() && before[i] == l;
                    assert(before.push(link)[i] == l);
                }
            }
        }
        if links.no_duplicates() && !before.contains(link) {
            lemma_push_no_duplicates(before, link);
        }
    }
}

/// In a sequence free of duplicates every place is the first of its key.
pub proof fn lemma_unique_position<K>(keys: Seq<K>, i: int)
    requires
        keys.no_duplicates(),
        0 <= i < keys.len(),
    ensures
        position(keys, keys[i]) == Some(i),
{
    assert(first_at(keys, keys[i], i));
    super::model::lemma_position_is(keys, keys[i], i);
}

} // verus!
