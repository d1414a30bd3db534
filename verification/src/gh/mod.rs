//! Everything that talks to GitHub, through the GitHub CLI.
//!
//! gh-ship implements no REST client and handles no tokens: `gh` already
//! solves authentication, enterprise hosts and rate limiting. What lives
//! here is what gh-ship decides around each invocation: the arguments it
//! passes, and what it makes of the answer.

pub mod cli;
pub mod repo;
pub mod run;
pub mod workflow;

pub use cli::{Gh, GhError};

use vstd::prelude::*;

verus! {

/// A lowercase hexadecimal digit.
pub open spec fn is_lower_hex(c: char) -> bool {
    ('0' <= c && c <= '9') || ('a' <= c && c <= 'f')
}

/// The length of a correlation token.
pub const TOKEN_LEN: usize = 12;

/// A fresh v4 UUID in its `simple` form: 32 lowercase hexadecimal digits.
#[verifier::external_body]
fn uuid_simple() -> (r: String)
    ensures
        r@.len() == 32,
        forall|i: int| 0 <= i < 32 ==> is_lower_hex(#[trigger] r@[i]),
{
    uuid::Uuid::new_v4().simple().to_string()
}

/// A short random token, unique per invocation: the first twelve hex
/// digits of a v4 UUID.
pub fn short_token() -> (r: String)
    ensures
        r@.len() == TOKEN_LEN,
        forall|i: int| 0 <= i < TOKEN_LEN ==> is_lower_hex(#[trigger] r@[i]),
{
    let full = uuid_simple();
    crate::text::take_chars(full.as_str(), TOKEN_LEN)
}

} // verus!
