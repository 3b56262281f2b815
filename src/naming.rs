//! Unique, content-derived names for build artifacts.
//!
//! A name holds the mode token, the binary name, the build date as
//! `YYYYMMDD` and the first 16 hex digits of the SHA-256 digest of the
//! executable, so that it is identifiable, sortable by day and unique
//! for all practical purposes.

use vstd::prelude::*;

use sha2::Digest;

use crate::mode::{mode_name, BuildMode};
use crate::text::{
    decimal_2, hex_prefix, push_decimal_2, push_hex_prefix, push_signed_decimal, signed_decimal,
};

verus! {

/// A day of the Gregorian calendar.
#[derive(Clone, Copy, Debug, PartialEq, Eq, Structural)]
pub struct CalendarDate {
    pub year: i32,
    /// 1 for January through 12 for December.
    pub month: u8,
    /// Day of the month, starting at 1.
    pub day: u8,
}

impl CalendarDate {
    /// Month and day are in their calendar ranges.
    pub open spec fn wf(&self) -> bool {
        1 <= self.month <= 12 && 1 <= self.day <= 31
    }
}

/// The SHA-256 digest of a byte string.
pub uninterp spec fn sha256_of(data: Seq<u8>) -> Seq<u8>;

/// Relies on sha2::Sha256::digest: the SHA-256 digest of `data`,
/// which is 32 bytes long.
#[verifier::external_body]
fn sha256(data: &[u8]) -> (r: Vec<u8>)
    ensures
        r@ == sha256_of(data@),
        r@.len() == 32,
{
    sha2::Sha256::digest(data).to_vec()
}

/// Relies on time::OffsetDateTime::now_utc and its `date`: the current
/// day in UTC, a valid calendar date.
#[verifier::external_body]
pub(crate) fn today_utc() -> (r: CalendarDate)
    ensures
        r.wf(),
{
    let d = time::OffsetDateTime::now_utc().date();
    CalendarDate { year: d.year(), month: u8::from(d.month()), day: d.day() }
}

/// `YYYYMMDD` for a date.
pub open spec fn date_stamp(when: CalendarDate) -> Seq<char> {
    signed_decimal(when.year as int) + decimal_2(when.month as nat) + decimal_2(when.day as nat)
}

/// The first 16 hex digits of the SHA-256 digest of `contents`.
pub open spec fn content_tag(contents: Seq<u8>) -> Seq<char> {
    hex_prefix(sha256_of(contents), 8)
}

/// `<mode>-<name>-<YYYYMMDD>-<hex of the digest's first 8 bytes>`.
pub open spec fn name_with_digest(
    mode: BuildMode,
    name: Seq<char>,
    digest: Seq<u8>,
    when: CalendarDate,
) -> Seq<char> {
    mode_name(mode) + "-"@ + name + "-"@ + date_stamp(when) + "-"@ + hex_prefix(digest, 8)
}

/// `<name>-<YYYYMMDD>-<hex of the digest's first 8 bytes>.zip`.
pub open spec fn zip_name_with_digest(name: Seq<char>, digest: Seq<u8>, when: CalendarDate) -> Seq<
    char,
> {
    name + "-"@ + date_stamp(when) + "-"@ + hex_prefix(digest, 8) + ".zip"@
}

/// `<mode>-<name>-<YYYYMMDD>-<16 hex digits of the SHA-256 digest>`.
pub open spec fn unique_name(
    mode: BuildMode,
    name: Seq<char>,
    contents: Seq<u8>,
    when: CalendarDate,
) -> Seq<char> {
    name_with_digest(mode, name, sha256_of(contents), when)
}

/// `<name>-<YYYYMMDD>-<16 hex digits of the SHA-256 digest>.zip`.
pub open spec fn zip_name(name: Seq<char>, contents: Seq<u8>, when: CalendarDate) -> Seq<char> {
    zip_name_with_digest(name, sha256_of(contents), when)
}

/// Append `-<YYYYMMDD>-<hex of the digest's first 8 bytes>`.
fn push_date_and_tag(s: &mut String, digest: &[u8], when: CalendarDate)
    requires
        digest@.len() >= 8,
    ensures
        final(s)@ == old(s)@ + "-"@ + date_stamp(when) + "-"@ + hex_prefix(digest@, 8),
{
    s.append("-");
    push_signed_decimal(s, when.year);
    push_decimal_2(s, when.month);
    push_decimal_2(s, when.day);
    s.append("-");
    push_hex_prefix(s, digest, 8);
    assert(final(s)@ =~= old(s)@ + "-"@ + date_stamp(when) + "-"@ + hex_prefix(digest@, 8));
}

/// The unique name for an executable whose digest is `digest`.
pub fn name_from_digest(mode: BuildMode, name: &str, digest: &[u8], when: CalendarDate) -> (r:
    String)
    requires
        digest@.len() >= 8,
    ensures
        r@ == name_with_digest(mode, name@, digest@, when),
{
    let mut s = String::from_str(mode.name());
    s.append("-");
    s.append(name);
    push_date_and_tag(&mut s, digest, when);
    assert(s@ =~= name_with_digest(mode, name@, digest@, when));
    s
}

/// The zip file name for an executable whose digest is `digest`.
pub fn zip_name_from_digest(name: &str, digest: &[u8], when: CalendarDate) -> (r: String)
    requires
        digest@.len() >= 8,
    ensures
        r@ == zip_name_with_digest(name@, digest@, when),
{
    let mut s = String::from_str(name);
    push_date_and_tag(&mut s, digest, when);
    s.append(".zip");
    assert(s@ =~= zip_name_with_digest(name@, digest@, when));
    s
}

/// Create a unique output file name.
///
/// The file name is intended to be identifiable, sortable by time,
/// unique, and reasonably short. To make this it includes:
/// - build-mode prefix (al2 or lambda)
/// - executable name
/// - year, month, and day
/// - first 16 digits of the sha256 hex hash
pub fn make_unique_name(mode: BuildMode, name: &str, contents: &[u8], when: CalendarDate) -> (r:
    String)
    ensures
        r@ == unique_name(mode, name@, contents@, when),
{
    let digest = sha256(contents);
    name_from_digest(mode, name, digest.as_slice(), when)
}

/// Create the unique zip file name for a Lambda bundle:
/// `<name>-<YYYYMMDD>-<16 hex digits>.zip`.
pub fn make_zip_name(name: &str, contents: &[u8], when: CalendarDate) -> (r: String)
    ensures
        r@ == zip_name(name@, contents@, when),
{
    let digest = sha256(contents);
    zip_name_from_digest(name, digest.as_slice(), when)
}

/// A name depends on its inputs alone: building the same executable
/// under the same name, mode and day gives the same name.
pub proof fn lemma_unique_name_deterministic(
    mode: BuildMode,
    name: Seq<char>,
    contents1: Seq<u8>,
    contents2: Seq<u8>,
    when1: CalendarDate,
    when2: CalendarDate,
)
    requires
        contents1 == contents2,
        when1 == when2,
    ensures
        unique_name(mode, name, contents1, when1) == unique_name(mode, name, contents2, when2),
        zip_name(name, contents1, when1) == zip_name(name, contents2, when2),
{
}

/// Two names built on the same day from different executables differ
/// only when the digests of the executables agree on their first
/// eight bytes.
pub proof fn lemma_same_name_means_same_tag(
    mode: BuildMode,
    name: Seq<char>,
    contents1: Seq<u8>,
    contents2: Seq<u8>,
    when: CalendarDate,
)
    requires
        unique_name(mode, name, contents1, when) == unique_name(mode, name, contents2, when),
    ensures
        content_tag(contents1) == content_tag(contents2),
{
    let prefix = mode_name(mode) + "-"@ + name + "-"@ + date_stamp(when) + "-"@;
    let a = unique_name(mode, name, contents1, when);
    let b = unique_name(mode, name, contents2, when);
    assert(content_tag(contents1) == hex_prefix(sha256_of(contents1), 8));
    assert(content_tag(contents2) == hex_prefix(sha256_of(contents2), 8));
    assert(a == prefix + content_tag(contents1));
    assert(b == prefix + content_tag(contents2));
    assert(content_tag(contents1) =~= a.subrange(prefix.len() as int, a.len() as int));
    assert(content_tag(contents2) =~= b.subrange(prefix.len() as int, b.len() as int));
}

} // verus!
