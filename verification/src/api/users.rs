//! The operations on users that the service offers.

use super::error::{
    done_reply, refused, translated, turned_down, user_reply, users_reply, ApiError,
    ApiErrorView,
};
use crate::db::error::{user_not_found, RepositoryErrorView};
use crate::db::repository::{outcome_view, user_answer, users_answer, Repository};
use crate::models::ident::ID_LEN;
use crate::models::user::{User, UserRole, UserView};
use vstd::prelude::*;

verus! {

/// What a caller sends to create a user.
pub struct CreateUserRequest {
    pub name: String,
    pub email: String,
    pub role: String,
}

/// What a caller sends to change a user.
pub struct UpdateUserRequest {
    pub name: String,
    pub email: String,
    pub role: String,
}

/// The complaint about a role token that stands for no role.
pub open spec fn invalid_role() -> ApiErrorView {
    ApiErrorView::BadRequest("Invalid user role"@)
}

/// Reads the role of a request.
pub fn parse_role(token: &str) -> (r: Result<UserRole, ApiError>)
    ensures
        match UserRole::of_token(token@) {
            Some(role) => r == Ok::<UserRole, ApiError>(role),
            None => r matches Err(e) && e@ == invalid_role(),
        },
{
    match UserRole::from_token(token) {
        Some(role) => Ok(role),
        None => Err(ApiError::BadRequest("Invalid user role".to_owned())),
    }
}

/// Every user: what the repository answers, its failure translated.
pub fn get_users<R: Repository>(repo: &R) -> (r: Result<Vec<User>, ApiError>)
    ensures
        exists|answer: Result<Seq<UserView>, RepositoryErrorView>| #[trigger]
            repo.lists_users(answer) && users_reply(r) == translated(answer),
        r matches Err(e) ==> e@ is Internal,
{
    let inner = repo.get_users();
    let ghost answer = users_answer(inner);
    let r = match inner {
        Ok(users) => Ok(users),
        Err(e) => Err(ApiError::from(e)),
    };
    assert(repo.lists_users(answer) && users_reply(r) == translated(answer));
    r
}

/// The user with the identifier `id`: what the repository answers, its
/// failure translated.
pub fn get_user<R: Repository>(repo: &R, id: &str) -> (r: Result<User, ApiError>)
    ensures
        exists|answer: Result<UserView, RepositoryErrorView>| #[trigger]
            repo.finds_user(id@, answer) && user_reply(r) == translated(answer),
        r matches Err(e) ==> e@ is Internal || e@ == ApiErrorView::NotFound(user_not_found(id@)),
{
    let inner = repo.get_user_by_id(id);
    let ghost answer = user_answer(inner);
    let r = match inner {
        Ok(user) => Ok(user),
        Err(e) => Err(ApiError::from(e)),
    };
    assert(repo.finds_user(id@, answer) && user_reply(r) == translated(answer));
    r
}

/// What comes of storing a user: the user, or the failure translated.
pub open spec fn stored_user(user: UserView, outcome: Result<(), RepositoryErrorView>) -> Result<
    UserView,
    ApiErrorView,
> {
    match outcome {
        Ok(()) => Ok(user),
        Err(f) => Err(ApiErrorView::of_repository(f)),
    }
}

/// Whether creating the user of the request may lead from `before` to `after`
/// with the reply: a role token that stands for no role is turned down and
/// nothing is stored; otherwise a user with the fields of the request and a
/// fresh identifier is handed to the repository to store.
pub open spec fn creates<R: Repository>(
    before: &R,
    req: &CreateUserRequest,
    after: &R,
    reply: Result<UserView, ApiErrorView>,
) -> bool {
    match UserRole::of_token(req.role@) {
        None => turned_down(before, after, reply, invalid_role()),
        Some(role) => exists|user: UserView, outcome: Result<(), RepositoryErrorView>| #[trigger]
            before.creates_user(user, after, outcome) && user.id.len() == ID_LEN && user.name
                == req.name@ && user.email == req.email@ && user.role == role && reply
                == stored_user(user, outcome),
    }
}

/// Creates the user of the request under a fresh identifier. A role token
/// that stands for no role is refused before anything is stored.
pub fn create_user<R: Repository>(repo: &mut R, req: &CreateUserRequest) -> (r: Result<
    User,
    ApiError,
>)
    ensures
        creates(old(repo), req, final(repo), user_reply(r)),
        UserRole::of_token(req.role@) is None ==> (r matches Err(e) && e@ == invalid_role()),
        r matches Ok(u) ==> u.name@ == req.name@ && u.email@ == req.email@ && UserRole::of_token(
            req.role@,
        ) == Some(u.role) && u.id@.len() == ID_LEN,
        r matches Err(e) ==> e@ is Internal || (e@ == invalid_role() && UserRole::of_token(
            req.role@,
        ) is None),
{
    let role = parse_role(req.role.as_str())?;
    let user = User::new(req.name.clone(), req.email.clone(), role);
    let stored = repo.create_user(&user);
    let ghost outcome = outcome_view(stored);
    let r = match stored {
        Ok(()) => Ok(user),
        Err(e) => Err(ApiError::from(e)),
    };
    assert(old(repo).creates_user(user@, repo, outcome) && user@.id.len() == ID_LEN && user@.name
        == req.name@ && user@.email == req.email@ && user@.role == role && user_reply(r)
        == stored_user(user@, outcome));
    r
}

/// Whether changing the user `id` as the request says may lead from `before`
/// to `after` with the reply: a failure to find the user is handed on; a role
/// token that stands for no role is turned down; in both cases nothing is
/// stored. Otherwise the user that was found, with name, email and role of
/// the request, is handed to the repository to store.
pub open spec fn updates<R: Repository>(
    before: &R,
    id: Seq<char>,
    req: &UpdateUserRequest,
    after: &R,
    reply: Result<UserView, ApiErrorView>,
) -> bool {
    exists|found: Result<UserView, RepositoryErrorView>| #[trigger]
        before.finds_user(id, found) && match found {
            Err(f) => refused(before, after, reply, f),
            Ok(stored) => match UserRole::of_token(req.role@) {
                None => turned_down(before, after, reply, invalid_role()),
                Some(role) => exists|outcome: Result<(), RepositoryErrorView>| #[trigger]
                    before.updates_user(
                        UserView { id: stored.id, name: req.name@, email: req.email@, role },
                        after,
                        outcome,
                    ) && reply == stored_user(
                        UserView { id: stored.id, name: req.name@, email: req.email@, role },
                        outcome,
                    ),
            },
        }
}

/// Gives the user with the identifier `id` the name, email and role of the
/// request.
pub fn update_user<R: Repository>(repo: &mut R, id: &str, req: &UpdateUserRequest) -> (r: Result<
    User,
    ApiError,
>)
    ensures
        updates(old(repo), id@, req, final(repo), user_reply(r)),
        r matches Ok(u) ==> u.name@ == req.name@ && u.email@ == req.email@ && UserRole::of_token(
            req.role@,
        ) == Some(u.role),
        r matches Err(e) ==> {
            ||| e@ is Internal
            ||| e@ is NotFound
            ||| (e@ == invalid_role() && UserRole::of_token(req.role@) is None)
        },
{
    let inner = repo.get_user_by_id(id);
    let ghost found = user_answer(inner);
    let mut user = match inner {
        Ok(user) => user,
        Err(e) => {
            let r = Err(ApiError::from(e));
            assert(repo.finds_user(id@, found) && refused(repo, repo, user_reply(r), found->Err_0));
            return r;
        },
    };
    let ghost stored = user@;
    let role = match parse_role(req.role.as_str()) {
        Ok(role) => role,
        Err(e) => {
            let r = Err(e);
            assert(repo.finds_user(id@, found) && turned_down(
                repo,
                repo,
                user_reply(r),
                invalid_role(),
            ));
            return r;
        },
    };
    user.name = req.name.clone();
    user.email = req.email.clone();
    user.role = role;
    let saved = repo.update_user(&user);
    let ghost outcome = outcome_view(saved);
    let r = match saved {
        Ok(()) => Ok(user),
        Err(e) => Err(ApiError::from(e)),
    };
    proof {
        let changed = UserView { id: stored.id, name: req.name@, email: req.email@, role };
        assert(user@ == changed);
        assert(old(repo).updates_user(changed, repo, outcome) && user_reply(r) == stored_user(
            changed,
            outcome,
        ));
        assert(old(repo).finds_user(id@, found));
    }
    r
}

/// Removes the user with the identifier `id`: the repository does, and its
/// outcome comes back with the failure translated.
pub fn delete_user<R: Repository>(repo: &mut R, id: &str) -> (r: Result<(), ApiError>)
    ensures
        exists|outcome: Result<(), RepositoryErrorView>| #[trigger]
            old(repo).deletes_user(id@, final(repo), outcome) && done_reply(r) == translated(
                outcome,
            ),
        r matches Err(e) ==> e@ is Internal || e@ == ApiErrorView::NotFound(user_not_found(id@)),
{
    let inner = repo.delete_user(id);
    let ghost outcome = outcome_view(inner);
    let r = match inner {
        Ok(()) => Ok(()),
        Err(e) => Err(ApiError::from(e)),
    };
    assert(old(repo).deletes_user(id@, repo, outcome) && done_reply(r) == translated(outcome));
    r
}

} // verus!
