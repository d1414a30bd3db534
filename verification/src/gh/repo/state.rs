//! Reading a pull request `state`, whatever its case.

use vstd::prelude::*;

use crate::text::{eq_ignore_ascii_case, str_eq_ignore_ascii_case};

verus! {

pub fn is_merged(state: &str) -> (r: bool)
    ensures
        r == eq_ignore_ascii_case(state@, "merged"@),
{
    str_eq_ignore_ascii_case(state, "merged")
}

pub fn is_open(state: &str) -> (r: bool)
    ensures
        r == eq_ignore_ascii_case(state@, "open"@),
{
    str_eq_ignore_ascii_case(state, "open")
}

pub fn is_closed(state: &str) -> (r: bool)
    ensures
        r == eq_ignore_ascii_case(state@, "closed"@),
{
    str_eq_ignore_ascii_case(state, "closed")
}

} // verus!
