//! The calls this library makes into std and into outside crates, each with
//! the contract that the callers' proofs rest on.

use vstd::prelude::*;
use blake2::{Blake2b, Digest};
use rand::seq::SliceRandom;

verus! {

/// The BLAKE2b-512 digest of `data`.
pub uninterp spec fn blake2b_digest(data: Seq<u8>) -> Seq<u8>;

/// What `str::to_lowercase` makes of `s` (full Unicode lower-casing).
pub uninterp spec fn lowercased(s: Seq<char>) -> Seq<char>;

/// Whether `validator::validate_email` accepts `s`.
pub uninterp spec fn email_accepted(s: Seq<char>) -> bool;

/// What `{:?}` writes for the string `s`: the quoted, escaped text.
pub uninterp spec fn debug_quoted(s: Seq<char>) -> Seq<char>;

/// The message of the `ParseIntError` that parsing `s` as a `u32` gives.
pub uninterp spec fn u32_parse_error(s: Seq<char>) -> Seq<char>;

/// Whether `c` is an ASCII decimal digit.
pub open spec fn is_digit(c: char) -> bool {
    '0' <= c && c <= '9'
}

/// The value of a string of decimal digits.
pub open spec fn digits_value(s: Seq<char>) -> nat
    decreases s.len(),
{
    if s.len() == 0 {
        0
    } else {
        digits_value(s.drop_last()) * 10 + (s.last() as nat - '0' as nat) as nat
    }
}

/// What `u16::from_str` and `u32::from_str` read as an unsigned number no
/// larger than `max`: an optional `+`, then one or more decimal digits.
pub open spec fn parse_unsigned(s: Seq<char>, max: nat) -> Option<nat> {
    let d = if s.len() > 0 && s[0] == '+' { s.drop_first() } else { s };
    if d.len() > 0 && (forall|i: int| 0 <= i < d.len() ==> is_digit(#[trigger] d[i]))
        && digits_value(d) <= max {
        Some(digits_value(d))
    } else {
        None
    }
}

/// Hashes `data` with `blake2::Blake2b` (`new`, `chain`, `finalize`):
/// the result is the named digest, 64 bytes long as the type's output size says.
#[verifier::external_body]
pub(crate) fn blake2b_512(data: &[u8]) -> (r: Vec<u8>)
    ensures
        r@ == blake2b_digest(data@),
        r@.len() == 64,
{
    Blake2b::new().chain(data).finalize().to_vec()
}

/// Calls `str::to_lowercase`; the result is the named lower-casing of `s`.
#[verifier::external_body]
pub(crate) fn to_lowercase(s: &str) -> (r: String)
    ensures
        r@ == lowercased(s@),
{
    s.to_lowercase()
}

/// Calls `validator::validate_email`, which the `email` validation rule
/// uses; the result is the named verdict on `s`.
#[verifier::external_body]
pub(crate) fn validate_email(s: &str) -> (r: bool)
    ensures
        r == email_accepted(s@),
{
    validator::validate_email(s)
}

/// Writes `s` with `{:?}`; the result is the named quoted form of `s`.
#[verifier::external_body]
pub(crate) fn debug_str(s: &str) -> (r: String)
    ensures
        r@ == debug_quoted(s@),
{
    format!("{:?}", s)
}

/// Calls `u16::from_str`: `Some` exactly on the strings it documents as
/// valid, with their value.
#[verifier::external_body]
pub(crate) fn parse_u16(s: &str) -> (r: Option<u16>)
    ensures
        match parse_unsigned(s@, u16::MAX as nat) {
            Some(v) => r == Some(v as u16),
            None => r is None,
        },
{
    s.parse::<u16>().ok()
}

/// Calls `u32::from_str`: `Ok` exactly on the strings it documents as valid,
/// with their value; otherwise the error's message, which is named.
#[verifier::external_body]
pub(crate) fn parse_u32(s: &str) -> (r: Result<u32, String>)
    ensures
        match parse_unsigned(s@, u32::MAX as nat) {
            Some(v) => r == Ok::<u32, String>(v as u32),
            None => r matches Err(e) && e@ == u32_parse_error(s@),
        },
{
    match s.parse::<u32>() {
        Ok(v) => Ok(v),
        Err(e) => Err(e.to_string()),
    }
}

/// Calls `rand::seq::SliceRandom::choose` with the thread-local generator.
/// Which item comes back is chance; it is one of `items`, and there is one
/// exactly when `items` is not empty.
#[verifier::external_body]
pub(crate) fn choose_random(items: &[&'static str]) -> (r: Option<&'static str>)
    ensures
        r is Some <==> items@.len() > 0,
        r matches Some(x) ==> items@.contains(x),
{
    items.choose(&mut rand::thread_rng()).copied()
}

/// Seconds since the Unix epoch, from `SystemTime::now` and
/// `duration_since`; `None` when the clock is set before the epoch. Nothing
/// is stated of the value: it is the time.
#[verifier::external_body]
pub(crate) fn seconds_since_epoch() -> (r: Option<u64>) {
    std::time::SystemTime::now().duration_since(std::time::SystemTime::UNIX_EPOCH).ok().map(|d| d.as_secs())
}

/// A fresh confirmation token: `uuid::Uuid::new_v4`, written out as text.
/// Nothing is stated of it: it is random.
#[verifier::external_body]
pub(crate) fn fresh_token() -> (r: String) {
    uuid::Uuid::new_v4().to_string()
}

} // verus!
