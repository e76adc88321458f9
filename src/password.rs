//! The shared group password: its length bounds and the case-insensitive
//! comparison.
use vstd::prelude::*;

verus! {

/// The fewest characters a submitted password may have.
pub const PASSWORD_MIN_CHARS: usize = 5;

/// The most characters a submitted password may have.
pub const PASSWORD_MAX_CHARS: usize = 40;

/// The lowercase form of a string, as `str::to_lowercase` computes it.
pub uninterp spec fn lower_of(s: Seq<char>) -> Seq<char>;

/// Relies on `str::to_lowercase`: its result depends on the characters alone.
#[verifier::external_body]
fn lowercase(s: &String) -> (r: String)
    ensures
        r@ == lower_of(s@),
{
    s.to_lowercase()
}

/// Whether a password has an acceptable number of characters (5 to 40).
pub fn password_length_ok(password: &String) -> (r: bool)
    ensures
        r == (PASSWORD_MIN_CHARS <= password@.len() <= PASSWORD_MAX_CHARS),
{
    let n = password.as_str().unicode_len();
    PASSWORD_MIN_CHARS <= n && n <= PASSWORD_MAX_CHARS
}

/// Compares two passwords that are already in lowercase form.
pub fn passwords_match_folded(submitted_lower: &String, expected_lower: &String) -> (r: bool)
    ensures
        r == (submitted_lower@ == expected_lower@),
{
    *submitted_lower == *expected_lower
}

/// Whether the submitted password is the expected one, ignoring case.
pub fn verify_password(submitted: &String, expected: &String) -> (r: bool)
    ensures
        r == (lower_of(submitted@) == lower_of(expected@)),
{
    let a = lowercase(submitted);
    let b = lowercase(expected);
    passwords_match_folded(&a, &b)
}

} // verus!
