//! Account identifiers and the companion token account.
use vstd::prelude::*;
use vstd::string::StringExecFns;

verus! {

/// A character that may stand in an account identifier.
pub open spec fn is_id_char(c: char) -> bool {
    ('a' <= c && c <= 'z') || ('0' <= c && c <= '9') || is_separator(c)
}

/// A character that separates the parts of an account identifier.
pub open spec fn is_separator(c: char) -> bool {
    c == '-' || c == '_' || c == '.'
}

/// A well-formed account identifier: two to sixty-four characters out of
/// lower-case letters, digits and separators, where a separator neither
/// begins nor ends the identifier nor follows another separator.
pub open spec fn valid_account_id(s: Seq<char>) -> bool {
    &&& 2 <= s.len() <= 64
    &&& forall|i: int| 0 <= i < s.len() ==> #[trigger] is_id_char(s[i])
    &&& forall|i: int|
        0 <= i < s.len() && #[trigger] is_separator(s[i]) ==> 0 < i < s.len() - 1
            && !is_separator(s[i - 1])
}

/// Relies on near_sdk::env::is_valid_account_id, which accepts exactly the
/// identifiers described by `valid_account_id`; any byte outside ASCII is
/// refused there, so the check on bytes agrees with the one on characters.
#[verifier::external_body]
pub(crate) fn is_valid_account(s: &str) -> (r: bool)
    ensures
        r == valid_account_id(s@),
{
    near_sdk::env::is_valid_account_id(s.as_bytes())
}

/// The account of the companion token contract under `current`.
pub open spec fn token_account_of(current: Seq<char>) -> Seq<char> {
    "ft."@ + current
}

/// Builds the account of the companion token contract under `current`.
pub fn token_account(current: &str) -> (r: String)
    ensures
        r@ == token_account_of(current@),
{
    let mut r = String::from_str("ft.");
    r.append(current);
    r
}

} // verus!
