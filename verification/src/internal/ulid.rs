//! Well-formedness of ULID identifiers (store and authorization model ids).

use vstd::prelude::*;

verus! {

/// The Crockford base-32 digits accepted by the ULID decoder, in either case
/// (`I`, `L`, `O` and `U` are not digits).
pub open spec fn is_crockford_digit(c: char) -> bool {
    ||| ('0' <= c && c <= '9')
    ||| ('A' <= c && c <= 'Z' && c != 'I' && c != 'L' && c != 'O' && c != 'U')
    ||| ('a' <= c && c <= 'z' && c != 'i' && c != 'l' && c != 'o' && c != 'u')
}

/// Text that the `ulid` crate decodes: exactly 26 Crockford digits.
pub open spec fn is_ulid_text(s: Seq<char>) -> bool {
    &&& s.len() == 26
    &&& forall|i: int| 0 <= i < s.len() ==> is_crockford_digit(#[trigger] s[i])
}

/// Calls `ulid::Ulid::from_string` (what `str::parse::<Ulid>` runs) and reports
/// whether it succeeded. The decoder accepts a string of 26 bytes each of which
/// is a Crockford digit of either case; since such bytes are ASCII this is the
/// same as 26 characters that are all Crockford digits.
#[verifier::external_body]
fn ulid_decodes(s: &str) -> (ok: bool)
    ensures
        ok == is_ulid_text(s@),
{
    ::ulid::Ulid::from_string(s).is_ok()
}

/// Returns `true` if `s` is a well-formed ULID string.
pub fn is_well_formed_ulid(s: &str) -> (ok: bool)
    ensures
        ok == (s@.len() != 0 && is_ulid_text(s@)),
{
    if s.is_empty() {
        return false;
    }
    ulid_decodes(s)
}

} // verus!
