//! The clock and the random identifiers that the logic asks for, and the
//! renderings of a UUID.

use vstd::prelude::*;
use crate::text::{append_hex_lower, hex_lower, push_str};

verus! {

/// A UTC instant: seconds since the Unix epoch and the nanoseconds within
/// that second (above 999_999_999 only during a leap second).
#[derive(Clone, Copy, Debug, PartialEq, Eq, Structural)]
pub struct UtcTime {
    pub secs: i64,
    pub nanos: u32,
}

impl UtcTime {
    /// Within the range of instants that `chrono::DateTime<Utc>` represents.
    pub open spec fn wf(self) -> bool {
        &&& -10_000_000_000_000 < self.secs < 10_000_000_000_000
        &&& self.nanos < 2_000_000_000
    }

    /// Milliseconds since the Unix epoch.
    pub open spec fn spec_millis(self) -> int {
        self.secs * 1000 + self.nanos / 1_000_000
    }

    /// Milliseconds since the Unix epoch (`DateTime::timestamp_millis`).
    pub fn millis(&self) -> (r: i64)
        requires
            self.wf(),
        ensures
            r == self.spec_millis(),
    {
        self.secs * 1000 + (self.nanos / 1_000_000) as i64
    }
}

/// `chrono::Utc::now()`: the current instant, as its Unix timestamp and
/// sub-second nanoseconds. Nothing is claimed of the value but that it lies
/// within chrono's range.
#[verifier::external_body]
pub(crate) fn now_utc() -> (r: UtcTime)
    ensures
        r.wf(),
{
    let now = chrono::Utc::now();
    UtcTime { secs: now.timestamp(), nanos: now.timestamp_subsec_nanos() }
}

/// Sixteen bytes that form a version 4 (random) UUID of the RFC 4122
/// variant: the high nibble of byte 6 is 4 and the two high bits of byte 8
/// are `10`.
pub open spec fn is_v4_uuid(b: Seq<u8>) -> bool {
    &&& b.len() == 16
    &&& b[6] / 16 == 4
    &&& b[8] / 64 == 2
}

/// `uuid::Uuid::new_v4()`: the sixteen bytes of a fresh random UUID. Claimed,
/// as uuid 1.29 sets them: the version (4) and variant (RFC 4122) bits; the
/// other 122 bits are random and not described.
#[verifier::external_body]
pub(crate) fn new_uuid_v4_bytes() -> (r: Vec<u8>)
    ensures
        is_v4_uuid(r@),
{
    uuid::Uuid::new_v4().as_bytes().to_vec()
}

/// The hyphenated rendering of a UUID's sixteen bytes, as its `Display`
/// writes it: lower-case hex in groups of 8, 4, 4, 4 and 12 digits.
pub open spec fn uuid_hyphenated(b: Seq<u8>) -> Seq<char> {
    hex_lower(b.subrange(0, 4)) + "-"@ + hex_lower(b.subrange(4, 6)) + "-"@ + hex_lower(
        b.subrange(6, 8),
    ) + "-"@ + hex_lower(b.subrange(8, 10)) + "-"@ + hex_lower(b.subrange(10, 16))
}

/// The hyphenated text of the UUID with bytes `b`.
pub fn format_uuid_hyphenated(b: &[u8]) -> (r: String)
    requires
        b@.len() == 16,
    ensures
        r@ == uuid_hyphenated(b@),
{
    let mut out = String::new();
    let g1 = slice_range(b, 0, 4);
    let g2 = slice_range(b, 4, 6);
    let g3 = slice_range(b, 6, 8);
    let g4 = slice_range(b, 8, 10);
    let g5 = slice_range(b, 10, 16);
    append_hex_lower(&mut out, g1.as_slice());
    push_str(&mut out, "-");
    append_hex_lower(&mut out, g2.as_slice());
    push_str(&mut out, "-");
    append_hex_lower(&mut out, g3.as_slice());
    push_str(&mut out, "-");
    append_hex_lower(&mut out, g4.as_slice());
    push_str(&mut out, "-");
    append_hex_lower(&mut out, g5.as_slice());
    assert(out@ =~= uuid_hyphenated(b@));
    out
}

/// A fresh random UUID in its hyphenated text form
/// (`Uuid::new_v4().to_string()`).
pub fn new_uuid_string() -> (r: String)
    ensures
        exists|b: Seq<u8>| is_v4_uuid(b) && r@ == #[trigger] uuid_hyphenated(b),
{
    let b = new_uuid_v4_bytes();
    format_uuid_hyphenated(b.as_slice())
}

/// The elements of `s` from `lo` up to `hi`, copied.
pub fn slice_range(s: &[u8], lo: usize, hi: usize) -> (r: Vec<u8>)
    requires
        lo <= hi <= s@.len(),
    ensures
        r@ == s@.subrange(lo as int, hi as int),
{
    let mut r: Vec<u8> = Vec::new();
    let mut i: usize = lo;
    while i < hi
        invariant
            lo <= i <= hi <= s@.len(),
            r@ == s@.subrange(lo as int, i as int),
        decreases hi - i,
    {
        r.push(s[i]);
        assert(s@.subrange(lo as int, i + 1) =~= s@.subrange(lo as int, i as int).push(
            s@[i as int],
        ));
        i = i + 1;
    }
    r
}

} // verus!
