//! Users and their roles.

use super::ident::{new_id, ID_LEN};
use crate::text::same_text;
use vstd::prelude::*;

verus! {

/// What a user does with tasks.
#[derive(Debug, Clone, Copy, PartialEq, Eq, Structural)]
pub enum UserRole {
    /// Carries tasks out.
    Executor,
    /// Orders tasks.
    Customer,
}

impl UserRole {
    /// The token that stands for the role in the store.
    pub open spec fn token(self) -> Seq<char> {
        match self {
            UserRole::Executor => "executor"@,
            UserRole::Customer => "customer"@,
        }
    }

    /// The role that a token stands for.
    pub open spec fn of_token(token: Seq<char>) -> Option<UserRole> {
        if token == "executor"@ {
            Some(UserRole::Executor)
        } else if token == "customer"@ {
            Some(UserRole::Customer)
        } else {
            None
        }
    }

    /// The name of the role as it is shown to people.
    pub open spec fn label_text(self) -> Seq<char> {
        match self {
            UserRole::Executor => "Исполнитель"@,
            UserRole::Customer => "Заказчик"@,
        }
    }

    /// The token that stands for the value in the store.
    pub fn as_token(&self) -> (r: &'static str)
        ensures
            r@ == self.token(),
    {
        match self {
            UserRole::Executor => "executor",
            UserRole::Customer => "customer",
        }
    }

    /// Reads a token; one that stands for no role gives `None`.
    pub fn from_token(token: &str) -> (r: Option<UserRole>)
        ensures
            r == UserRole::of_token(token@),
    {
        if same_text(token, "executor") {
            Some(UserRole::Executor)
        } else if same_text(token, "customer") {
            Some(UserRole::Customer)
        } else {
            None
        }
    }

    /// The name of the value as it is shown to people.
    pub fn label(&self) -> (r: String)
        ensures
            r@ == self.label_text(),
    {
        match self {
            UserRole::Executor => "Исполнитель".to_owned(),
            UserRole::Customer => "Заказчик".to_owned(),
        }
    }

    /// Reading the token of a role gives the role back.
    pub proof fn lemma_token_round_trip(self)
        ensures
            UserRole::of_token(self.token()) == Some(self),
    {
        reveal_strlit("executor");
        reveal_strlit("customer");
        assert("executor"@[0] != "customer"@[0]);
    }

    /// A token that is read stands for exactly the role whose token it is.
    pub proof fn lemma_token_unique(token: Seq<char>, role: UserRole)
        ensures
            UserRole::of_token(token) == Some(role) <==> token == role.token(),
    {
        role.lemma_token_round_trip();
    }
}

/// The mathematical value of a [`User`].
pub struct UserView {
    pub id: Seq<char>,
    pub name: Seq<char>,
    pub email: Seq<char>,
    pub role: UserRole,
}

/// A person who orders tasks or carries them out.
#[derive(Debug)]
pub struct User {
    pub id: String,
    pub name: String,
    pub email: String,
    pub role: UserRole,
}

impl View for User {
    type V = UserView;

    open spec fn view(&self) -> UserView {
        UserView { id: self.id@, name: self.name@, email: self.email@, role: self.role }
    }
}

impl Clone for User {
    fn clone(&self) -> (r: Self)
        ensures
            r@ == self@,
    {
        User {
            id: self.id.clone(),
            name: self.name.clone(),
            email: self.email.clone(),
            role: self.role,
        }
    }
}

impl User {
    /// A user with a fresh identifier.
    pub fn new(name: String, email: String, role: UserRole) -> (r: User)
        ensures
            r.name == name,
            r.email == email,
            r.role == role,
            r.id@.len() == ID_LEN,
    {
        User { id: new_id(), name, email, role }
    }
}

} // verus!
