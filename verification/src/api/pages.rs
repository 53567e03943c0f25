//! What the pages of the service show.

use crate::db::codec::user_views;
use crate::models::user::{User, UserRole, UserView};
use vstd::prelude::*;

verus! {

/// Those of `users` that have the role, in order.
pub open spec fn views_with_role(users: Seq<UserView>, role: UserRole) -> Seq<UserView> {
    users.filter(|u: UserView| u.role == role)
}

/// The users that have the role, in the order of `users`.
pub fn users_with_role(users: &Vec<User>, role: UserRole) -> (r: Vec<User>)
    ensures
        user_views(r@) == views_with_role(user_views(users@), role),
{
    let mut out: Vec<User> = Vec::new();
    let mut i: usize = 0;
    let ghost keep = |u: UserView| u.role == role;
    let ghost all = user_views(users@);
    proof {
        reveal(Seq::filter);
        assert(all.take(0) =~= Seq::<UserView>::empty());
        assert(user_views(out@) =~= all.take(0).filter(keep));
    }
    while i < users.len()
        invariant
            i <= users.len(),
            all == user_views(users@),
            keep == (|u: UserView| u.role == role),
            user_views(out@) == all.take(i as int).filter(keep),
        decreases users.len() - i,
    {
        let ghost before = out@;
        proof {
            reveal(Seq::filter);
            assert(all.take(i as int + 1).drop_last() =~= all.take(i as int));
            assert(all.take(i as int + 1).last() == users@[i as int]@);
        }
        if users[i].role == role {
            out.push(users[i].clone());
            proof {
                assert(user_views(out@) =~= user_views(before).push(users@[i as int]@));
            }
        }
        i += 1;
    }
    assert(all.take(users@.len() as int) =~= all);
    out
}

} // verus!
