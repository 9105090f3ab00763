//! Calls into outside crates that the library's logic makes, each with the
//! contract its crate documents.
use vstd::prelude::*;
use sha2::Digest;

verus! {

/// The SHA-256 digest of `data`.
pub uninterp spec fn sha256_digest(data: Seq<u8>) -> Seq<u8>;

/// `sha2::Sha256::digest`: the 32-byte SHA-256 digest of `data`.
#[verifier::external_body]
pub(crate) fn sha256(data: &[u8]) -> (r: Vec<u8>)
    ensures
        r@ == sha256_digest(data@),
        r@.len() == 32,
{
    sha2::Sha256::digest(data).to_vec()
}

/// `c` is a lower-case hexadecimal digit.
pub open spec fn is_lower_hex(c: char) -> bool {
    ('0' <= c <= '9') || ('a' <= c <= 'f')
}

/// The hyphenated UUID text form: 36 characters, hyphens at positions 8, 13, 18 and 23,
/// lower-case hexadecimal digits everywhere else.
pub open spec fn is_uuid_text(s: Seq<char>) -> bool {
    &&& s.len() == 36
    &&& forall|i: int|
        0 <= i < 36 ==> if i == 8 || i == 13 || i == 18 || i == 23 {
            #[trigger] s[i] == '-'
        } else {
            is_lower_hex(s[i])
        }
}

/// `uuid::Uuid::new_v4().to_string()`: a random version-4 UUID in the hyphenated
/// lower-case form that `format_hyphenated` writes (eight, four, four, four and twelve
/// lower-case hexadecimal digits, separated by hyphens).
#[verifier::external_body]
pub(crate) fn new_uuid_string() -> (r: String)
    ensures
        is_uuid_text(r@),
{
    uuid::Uuid::new_v4().to_string()
}

/// `rand::random::<u8>()`: a random byte.
#[verifier::external_body]
pub(crate) fn random_byte() -> (b: u8) {
    rand::random::<u8>()
}

/// Unix times that `chrono` can represent as a `DateTime<Utc>`.
pub open spec fn chrono_time_in_range(ts: int) -> bool {
    -8_334_000_000_000 <= ts <= 8_210_000_000_000
}

/// Whether `chrono` can represent Unix time `ts` (within the range this library uses).
pub fn time_in_range(ts: i64) -> (r: bool)
    ensures
        r == chrono_time_in_range(ts as int),
{
    -8_334_000_000_000i64 <= ts && ts <= 8_210_000_000_000i64
}

/// The text `chrono` writes for Unix time `ts` (UTC) under format `fmt`.
pub uninterp spec fn chrono_format(ts: i64, fmt: Seq<char>) -> Seq<char>;

/// The two formats the library writes times in.
pub open spec fn known_time_format(fmt: Seq<char>) -> bool {
    fmt == "%y%m%d%H%M"@ || fmt == "%Y%m%d_%H%M%S"@
}

/// `DateTime::<Utc>::from_timestamp(ts, 0).format(fmt).to_string()`.
#[verifier::external_body]
pub(crate) fn format_utc(ts: i64, fmt: &str) -> (r: String)
    requires
        chrono_time_in_range(ts as int),
        known_time_format(fmt@),
    ensures
        r@ == chrono_format(ts, fmt@),
{
    chrono::DateTime::from_timestamp(ts, 0).unwrap().format(fmt).to_string()
}

/// The RFC 3339 text `chrono` writes for Unix time `ts` (UTC).
pub uninterp spec fn chrono_rfc3339(ts: i64) -> Seq<char>;

/// `DateTime::<Utc>::from_timestamp(ts, 0).to_rfc3339()`.
#[verifier::external_body]
pub(crate) fn rfc3339(ts: i64) -> (r: String)
    requires
        chrono_time_in_range(ts as int),
    ensures
        r@ == chrono_rfc3339(ts),
{
    chrono::DateTime::from_timestamp(ts, 0).unwrap().to_rfc3339()
}

} // verus!
