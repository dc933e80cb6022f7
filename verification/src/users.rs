//! The request-facing view of a user, and the pure decisions of the
//! login and credits lookups. The store queries and the password hash
//! check stay with the callers; only their results come in here.

use vstd::prelude::*;

use crate::errors::{LoopError, LoopErrorView, UserError, UserErrorView};
use crate::models;

verus! {

/// A user as the request layer sees one.
pub struct User {
    /// Auto-incrementing unique ID for a user
    pub id: i32,
    /// Unique alphanumeric username for easy identification
    pub username: String,
}

impl User {
    /// The user's id.
    pub fn id(&self) -> (r: i32)
        ensures
            r == self.id,
    {
        self.id
    }

    /// The user's username.
    pub fn username(&self) -> (r: String)
        ensures
            r@ == self.username@,
    {
        self.username.clone()
    }

    /// The user's credit balance, visible only to the user themselves:
    /// any other authenticated caller sees nothing.
    pub fn credits(&self, caller_id: i32, amount: i32) -> (r: Option<i32>)
        ensures
            r == if caller_id == self.id {
                Some(amount)
            } else {
                None::<i32>
            },
    {
        if caller_id == self.id {
            Some(amount)
        } else {
            None
        }
    }
}

impl From<models::User> for User {
    fn from(stored: models::User) -> (r: Self) {
        User { id: stored.id, username: stored.username }
    }
}

impl vstd::std_specs::convert::FromSpecImpl<models::User> for User {
    open spec fn obeys_from_spec() -> bool {
        true
    }

    open spec fn from_spec(stored: models::User) -> Self {
        User { id: stored.id, username: stored.username }
    }
}

/// Decides a login attempt from what the collaborators report: no user
/// of that name fails with name-not-found carrying the attempted name, a
/// failed password check fails with password-mismatch, and otherwise the
/// found user's id is the authenticated caller.
pub fn login(username: String, found_user_id: Option<i32>, password_ok: bool) -> (r: Result<
    i32,
    LoopError,
>)
    ensures
        match found_user_id {
            None => r matches Err(e) && e@ == LoopErrorView::UserError(
                UserErrorView::NameNonexist(username@),
            ),
            Some(id) => if password_ok {
                r == Ok::<i32, LoopError>(id)
            } else {
                r matches Err(e) && e@ == LoopErrorView::UserError(UserErrorView::PasswordMatch)
            },
        },
{
    match found_user_id {
        None => Err(LoopError::from(UserError::NameNonexist(username))),
        Some(id) => {
            if password_ok == false {
                Err(LoopError::from(UserError::PasswordMatch))
            } else {
                Ok(id)
            }
        },
    }
}

} // verus!
