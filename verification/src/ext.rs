//! The few points where the library leans on outside crates. Each
//! wrapper's contract states only what the crate's source shows.

use vstd::prelude::*;

verus! {

/// The standard base64 text of a byte sequence: a function of the
/// input alone.
pub uninterp spec fn base64_of(b: Seq<u8>) -> Seq<char>;

/// Relies on base64's `STANDARD` engine and `Engine::encode`: the
/// standard alphabet with padding, so the text is four characters for
/// every started group of three input bytes, and depends on the input
/// bytes alone.
#[verifier::external_body]
pub(crate) fn b64_encode(b: &[u8]) -> (r: String)
    requires
        b@.len() <= usize::MAX / 4,
    ensures
        r@ == base64_of(b@),
        r@.len() == ((b@.len() + 2) / 3) * 4,
{
    base64::Engine::encode(&base64::engine::general_purpose::STANDARD, b)
}

/// The RFC 3339 text of a UTC timestamp given in milliseconds since
/// the epoch: a function of the millisecond value alone.
pub uninterp spec fn rfc3339_of(ms: int) -> Seq<char>;

/// Millisecond values from year 1 through 9999; chrono renders every
/// one of them.
pub open spec fn rfc_in_range(ms: int) -> bool {
    -62135596800000 <= ms <= 253402300799999
}

/// Relies on chrono's `DateTime::<Utc>::from_timestamp_millis` and
/// `to_rfc3339`: `from_timestamp_millis` is `None` only out of
/// chrono's date range, which contains every year from 1 through 9999,
/// and the rendered text depends on the millisecond value alone.
#[verifier::external_body]
pub(crate) fn rfc3339_utc(ms: i64) -> (r: Option<String>)
    ensures
        r matches Some(s) ==> s@ == rfc3339_of(ms as int),
        rfc_in_range(ms as int) ==> r is Some,
{
    chrono::DateTime::<chrono::Utc>::from_timestamp_millis(ms).map(|t| t.to_rfc3339())
}

/// True for the hyphenated lowercase text of a version-4 UUID:
/// 36 characters, hyphens at positions 8, 13, 18 and 23, the version
/// nibble `4`, a variant nibble in `8`–`b`, lowercase hex elsewhere.
pub open spec fn is_uuid_v4_text(s: Seq<char>) -> bool {
    &&& s.len() == 36
    &&& s[8] == '-'
    &&& s[13] == '-'
    &&& s[18] == '-'
    &&& s[23] == '-'
    &&& s[14] == '4'
    &&& (s[19] == '8' || s[19] == '9' || s[19] == 'a' || s[19] == 'b')
    &&& forall|i: int|
        0 <= i < 36 && i != 8 && i != 13 && i != 18 && i != 23 ==> (48 <= #[trigger] s[i] as u32
            <= 57 || 97 <= s[i] as u32 <= 102)
}

/// Relies on uuid's `Uuid::new_v4` and its `Display`: a random UUID
/// with the version and variant bits set, shown hyphenated in
/// lowercase hex. Randomness allows no more than the format.
#[verifier::external_body]
pub(crate) fn new_uuid_v4() -> (r: String)
    ensures
        is_uuid_v4_text(r@),
{
    uuid::Uuid::new_v4().to_string()
}

} // verus!
