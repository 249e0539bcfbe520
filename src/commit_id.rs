//! Commit ids as they are written in a checkpoint: hexadecimal text.
use vstd::prelude::*;

verus! {

#[verifier::external_type_specification]
#[verifier::external_body]
pub struct ExOid(git2::Oid);

pub open spec fn is_hex_digit(c: char) -> bool {
    ('0' <= c && c <= '9') || ('a' <= c && c <= 'f') || ('A' <= c && c <= 'F')
}

/// Text that names a commit: one to forty hexadecimal digits.
pub open spec fn is_oid_text(s: Seq<char>) -> bool {
    &&& 1 <= s.len() <= 40
    &&& forall|i: int| 0 <= i < s.len() ==> is_hex_digit(#[trigger] s[i])
}

/// Relies on `git2::Oid::from_str`: it accepts exactly the strings of one to
/// forty hexadecimal digits, of either case.
#[verifier::external_body]
pub(crate) fn parse_oid(s: &str) -> (r: Option<git2::Oid>)
    ensures
        r is Some <==> is_oid_text(s@),
{
    git2::Oid::from_str(s).ok()
}

} // verus!
