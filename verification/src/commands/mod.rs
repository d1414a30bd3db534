//! What the subcommands decide.
//!
//! Each subcommand runs `gh`, reads files and prompts in the binary; the
//! decisions between those steps, the errors they end in and the text
//! they write are here. Nothing holds state between runs: every command
//! reconstructs what it needs from the artifact it is given or from
//! GitHub itself.

pub mod context;
pub mod init;
pub mod prepare;
pub mod release;
pub mod sign;
pub mod status;
pub mod validate;

pub use crate::paths::repo_root;

use vstd::prelude::*;

verus! {

/// The number of bytes a SHA is abbreviated to: git's own default, and
/// what GitHub shows.
pub const SHORT_SHA_LEN: usize = 7;

/// How many bytes of `sha` an abbreviation keeps.
pub open spec fn short_len(sha: Seq<char>) -> int {
    if vstd::utf8::encode_utf8(sha).len() < SHORT_SHA_LEN {
        vstd::utf8::encode_utf8(sha).len() as int
    } else {
        SHORT_SHA_LEN as int
    }
}

/// The characters of `sha`'s first seven bytes.
pub open spec fn abbreviated(sha: Seq<char>) -> Seq<char> {
    vstd::utf8::decode_utf8(vstd::utf8::encode_utf8(sha).subrange(0, short_len(sha)))
}

/// A commit SHA abbreviated for display: its first seven bytes, or all of
/// it when shorter. The cut must fall between two characters.
pub fn short_sha(sha: &str) -> (r: &str)
    requires
        vstd::utf8::is_char_boundary(
            vstd::utf8::encode_utf8(sha@),
            if vstd::utf8::encode_utf8(sha@).len() < SHORT_SHA_LEN { vstd::utf8::encode_utf8(sha@).len() as int } else { SHORT_SHA_LEN as int },
        ),
    ensures
        vstd::utf8::encode_utf8(r@) == vstd::utf8::encode_utf8(sha@).subrange(
            0,
            if vstd::utf8::encode_utf8(sha@).len() < SHORT_SHA_LEN { vstd::utf8::encode_utf8(sha@).len() as int } else { SHORT_SHA_LEN as int },
        ),
        r@ == abbreviated(sha@),
{
    let len = sha.as_bytes().len();
    let n = if len < SHORT_SHA_LEN { len } else { SHORT_SHA_LEN };
    let (head, _) = sha.split_at(n);
    proof {
        vstd::utf8::encode_utf8_decode_utf8(head@);
    }
    head
}

} // verus!
