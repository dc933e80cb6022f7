//! Core logic of a hierarchical content platform: blocks organized into a
//! graph by named parent-child links, a registry that routes generic
//! operations to per-type variants, a breadcrumb resolver that walks parent
//! links defensively, and a tiered permission evaluator.

pub mod blocks;
pub mod breadcrumb;
pub mod decimal;
pub mod delegation;
pub mod display;
pub mod errors;
pub mod menu;
pub mod models;
pub mod permissions;
pub mod strings;
pub mod types;
pub mod users;

use vstd::prelude::*;

verus! {

/// Whether the character is an ASCII letter or digit.
pub open spec fn is_alphanumeric_char(c: char) -> bool {
    ||| '0' <= c && c <= '9'
    ||| 'A' <= c && c <= 'Z'
    ||| 'a' <= c && c <= 'z'
}

/// Declares rand's `ThreadRng` so that a generator handle can pass
/// through signatures; the value stays opaque.
#[verifier::external_type_specification]
#[verifier::external_body]
pub struct ExThreadRng(rand::rngs::ThreadRng);

/// Relies on rand's `thread_rng`: a handle to the thread-local random
/// number generator.
#[verifier::external_body]
fn thread_rng() -> rand::rngs::ThreadRng {
    rand::thread_rng()
}

/// Relies on rand's `Rng::sample` with the `Alphanumeric` distribution:
/// each draw is one of the ASCII letters and digits.
#[verifier::external_body]
fn sample_alphanumeric_char(rng: &mut rand::rngs::ThreadRng) -> (r: char)
    ensures
        is_alphanumeric_char(r),
{
    char::from(rand::Rng::sample(rng, rand::distributions::Alphanumeric))
}

/// Generates a random string of length provided, of ASCII letters and
/// digits.
pub fn rand_string(length: usize) -> (r: String)
    ensures
        r@.len() == length,
        forall|k: int| 0 <= k < r@.len() ==> is_alphanumeric_char(#[trigger] r@[k]),
{
    let mut rng = thread_rng();
    let mut s = String::new();
    let mut i: usize = 0;
    while i < length
        invariant
            i <= length,
            s@.len() == i,
            forall|k: int| 0 <= k < s@.len() ==> is_alphanumeric_char(#[trigger] s@[k]),
        decreases length - i,
    {
        let c = sample_alphanumeric_char(&mut rng);
        s.push(c);
        i = i + 1;
    }
    s
}

} // verus!
