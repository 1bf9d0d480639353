//! The identifier generator: short, collision-resistant opaque codes.

use vstd::prelude::*;
use rand::Rng;
use rand::distributions::Alphanumeric;

verus! {

/// Length of every generated identifier.
pub const UID_LEN: usize = 13;

/// An ASCII letter or digit: the alphabet identifiers are drawn from.
pub open spec fn is_alphanumeric_char(c: char) -> bool {
    ('a' <= c && c <= 'z') || ('A' <= c && c <= 'Z') || ('0' <= c && c <= '9')
}

/// True of every string the generator can return.
pub open spec fn is_valid_uid(s: Seq<char>) -> bool {
    s.len() == UID_LEN && forall|i: int| 0 <= i < s.len() ==> is_alphanumeric_char(#[trigger] s[i])
}

/// Relies on rand's `Alphanumeric` distribution: each sample is an ASCII
/// letter or digit, so thirteen samples joined give a thirteen-character
/// alphanumeric string. The result is random; nothing more is assumed of it,
/// in particular not that two calls differ.
#[verifier::external_body]
pub(crate) fn gen_uid() -> (r: String)
    ensures
        is_valid_uid(r@),
{
    rand::thread_rng().sample_iter(&Alphanumeric).take(UID_LEN).map(char::from).collect()
}

} // verus!
