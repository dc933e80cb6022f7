//! Stored user rows as the persistence layer returns them. The rows are
//! plain values here; reading and writing them is the persistence
//! layer's work.

use vstd::prelude::*;

verus! {

/// A stored user row.
#[derive(Clone)]
pub struct User {
    /// Auto-incrementing unique ID for a user
    pub id: i32,
    /// Unique alphanumeric username for easy identification
    pub username: String,
    /// Username (standardized)
    pub localuname: String,
    pub password: String,
    pub email: String,
    pub credits: i32,
    pub display_name: Option<String>,
    pub root_id: Option<i64>,
    pub featured_id: Option<i64>,
    pub expo_tokens: Vec<String>,
    /// The latest update that the user has seen
    pub latest_update_seen_id: Option<i32>,
}

impl User {
    /// The user's notification token list with one more token at the
    /// end: what an added token makes the stored list.
    pub fn appended_expo_tokens(&self, token: String) -> (r: Vec<String>)
        ensures
            r@ == self.expo_tokens@.push(token),
    {
        let mut all_tokens = clone_string_list(&self.expo_tokens);
        all_tokens.push(token);
        all_tokens
    }
}

/// A copy of a list of strings.
fn clone_string_list(list: &Vec<String>) -> (r: Vec<String>)
    ensures
        r@ == list@,
{
    let n = list.len();
    let mut r: Vec<String> = Vec::new();
    let mut i: usize = 0;
    while i < n
        invariant
            i <= n,
            n == list.len(),
            r@ == list@.take(i as int),
        decreases n - i,
    {
        r.push(list[i].clone());
        proof {
            assert(r@ =~= list@.take(i + 1));
        }
        i = i + 1;
    }
    proof {
        assert(list@.take(n as int) =~= list@);
    }
    r
}

/// The fields a new user row is created from.
pub struct NewUser {
    /// Username must be unique
    pub username: String,
    /// Localized username, must be unique
    pub localuname: String,
    /// Will be securely stored
    pub password: String,
    pub email: String,
    pub credits: i32,
    pub display_name: Option<String>,
}

/// A signup awaiting email confirmation.
pub struct PotentialUser {
    pub id: i32,
    pub email: String,
    pub session_code: String,
    pub verification_code: String,
    pub username: String,
    pub password: String,
    /// Seconds since the epoch at creation.
    pub created_at: u64,
    pub display_name: Option<String>,
}

/// The fields a pending signup row is created from.
pub struct NewPotentialUser<'a> {
    pub email: &'a str,
    pub session_code: &'a str,
    pub verification_code: &'a str,
    pub username: &'a str,
    pub password: &'a str,
    /// Seconds since the epoch at creation.
    pub created_at: u64,
    pub display_name: Option<String>,
}

} // verus!
