//! Identifiers and timestamps: random UUIDs and the current UTC time.
use vstd::prelude::*;
use vstd::arithmetic::power2::pow2;

verus! {

/// A UTC instant: whole seconds since the Unix epoch and the nanoseconds within
/// the second (up to 1_999_999_999 during a leap second).
#[derive(Debug, Clone, Copy, PartialEq, Eq, Structural)]
pub struct UtcTime {
    pub secs: i64,
    pub nanos: u32,
}

/// `a` is not later than `b`: the order of `DateTime<Utc>`.
pub open spec fn time_le(a: UtcTime, b: UtcTime) -> bool {
    a.secs < b.secs || (a.secs == b.secs && a.nanos <= b.nanos)
}

/// `a` is not later than `b`.
pub fn time_not_after(a: &UtcTime, b: &UtcTime) -> (r: bool)
    ensures
        r == time_le(*a, *b),
{
    a.secs < b.secs || (a.secs == b.secs && a.nanos <= b.nanos)
}

/// The bits of a random (version 4, RFC 4122 variant) UUID that are fixed.
pub open spec fn is_v4_uuid(id: u128) -> bool {
    id & 0xF000C000000000000000u128 == 0x40008000000000000000u128
}

/// A version 4 UUID is never the nil UUID.
pub proof fn lemma_v4_uuid_not_nil(id: u128)
    requires
        is_v4_uuid(id),
    ensures
        id != 0,
{
    assert(id & 0xF000C000000000000000u128 == 0x40008000000000000000u128 ==> id != 0) by (bit_vector);
}

/// Calls `uuid::Uuid::new_v4` and returns the UUID as an integer (`as_u128`).
/// Its value is random; the contract states only the version and variant bits
/// that `new_v4` sets on every outcome.
#[verifier::external_body]
pub(crate) fn new_uuid() -> (id: u128)
    ensures
        is_v4_uuid(id),
{
    uuid::Uuid::new_v4().as_u128()
}

/// The lower-case hex digit of `d` (below 16).
pub open spec fn hex_digit(d: nat) -> char {
    if d == 0 { '0' }
    else if d == 1 { '1' }
    else if d == 2 { '2' }
    else if d == 3 { '3' }
    else if d == 4 { '4' }
    else if d == 5 { '5' }
    else if d == 6 { '6' }
    else if d == 7 { '7' }
    else if d == 8 { '8' }
    else if d == 9 { '9' }
    else if d == 10 { 'a' }
    else if d == 11 { 'b' }
    else if d == 12 { 'c' }
    else if d == 13 { 'd' }
    else if d == 14 { 'e' }
    else { 'f' }
}

/// The `k`-th of the 32 hex digits of `id`, most significant first.
pub open spec fn uuid_nibble(id: u128, k: int) -> nat {
    ((id as int / (pow2((4 * (31 - k)) as nat) as int)) % 16) as nat
}

/// Which hex digit stands at position `i` of the hyphenated text.
pub open spec fn uuid_digit_index(i: int) -> int {
    if i < 8 { i } else if i < 13 { i - 1 } else if i < 18 { i - 2 } else if i < 23 { i - 3 } else { i - 4 }
}

/// The hyphenated lower-case text that `Uuid`'s `Display` writes: the 32 hex
/// digits of the id, most significant first, in groups of 8, 4, 4, 4 and 12
/// joined by hyphens.
pub open spec fn uuid_hyphenated(id: u128) -> Seq<char> {
    Seq::new(36, |i: int| if i == 8 || i == 13 || i == 18 || i == 23 {
        '-'
    } else {
        hex_digit(uuid_nibble(id, uuid_digit_index(i)))
    })
}

/// A character of a hyphenated UUID: a lower-case hex digit or `-`.
pub open spec fn is_uuid_char(c: char) -> bool {
    ('0' <= c && c <= '9') || ('a' <= c && c <= 'f') || c == '-'
}

/// Calls `Uuid::from_u128(id).to_string()`, which writes the id's bytes in
/// big-endian order, two lower-case hex digits each, hyphenated 8-4-4-4-12.
#[verifier::external_body]
pub(crate) fn uuid_to_string(id: u128) -> (s: String)
    ensures
        s@ == uuid_hyphenated(id),
{
    uuid::Uuid::from_u128(id).to_string()
}

/// The text of a UUID has 36 characters, each a lower-case hex digit or a hyphen.
pub proof fn lemma_uuid_text_chars(id: u128)
    ensures
        uuid_hyphenated(id).len() == 36,
        forall|i: int| 0 <= i < 36 ==> #[trigger] is_uuid_char(uuid_hyphenated(id)[i]),
{
}

/// The first second of the earliest day that chrono represents
/// (`NaiveDate::MIN`, in year -262143), 00:00:00 UTC.
pub const EARLIEST_SECS: i64 = -8_334_601_228_800;
/// The last second of the latest day that chrono represents (`NaiveDate::MAX`,
/// 31 December of year 262142), 23:59:59 UTC.
pub const LATEST_SECS: i64 = 8_210_266_876_799;

/// An instant that `DateTime::from_timestamp` accepts: seconds within chrono's
/// dates, fewer than two billion nanoseconds, and a nanosecond count of one
/// billion or more (a leap second) only in the last second of a minute.
pub open spec fn chrono_accepts(t: UtcTime) -> bool {
    &&& EARLIEST_SECS <= t.secs <= LATEST_SECS
    &&& t.nanos < 2_000_000_000
    &&& t.nanos >= 1_000_000_000 ==> (t.secs as int) % 60 == 59
}

/// Calls `chrono::Utc::now` and returns its seconds and sub-second nanoseconds.
/// The value depends on the clock. What holds of every outcome: chrono builds
/// it with `DateTime::from_timestamp`, whose documentation shows that it gives
/// back the same instant for `timestamp()` and `timestamp_subsec_nanos()`, so
/// the instant is one that chrono accepts.
#[verifier::external_body]
pub(crate) fn now_utc() -> (t: UtcTime)
    ensures
        chrono_accepts(t),
{
    let now = chrono::Utc::now();
    UtcTime { secs: now.timestamp(), nanos: now.timestamp_subsec_nanos() }
}

/// Name of the RFC 3339 text that chrono writes for the UTC instant `secs`
/// seconds and `nanos` nanoseconds after the epoch.
pub uninterp spec fn rfc3339_text(secs: i64, nanos: u32) -> Seq<char>;

/// Calls `DateTime::from_timestamp(secs, nanos)` and, when chrono accepts the
/// instant, its `to_rfc3339`; the text is named. As chrono's source shows, the
/// instant is accepted exactly when its day lies within chrono's dates and its
/// time of day is valid (`NaiveTime::from_num_seconds_from_midnight_opt`).
#[verifier::external_body]
pub(crate) fn rfc3339_of(t: &UtcTime) -> (r: Option<String>)
    ensures
        r is Some <==> chrono_accepts(*t),
        r matches Some(s) ==> s@ == rfc3339_text(t.secs, t.nanos),
{
    chrono::DateTime::from_timestamp(t.secs, t.nanos).map(|d| d.to_rfc3339())
}

/// The RFC 3339 text of some instant that chrono accepts.
pub open spec fn is_stamp(s: Seq<char>) -> bool {
    exists|t: UtcTime| chrono_accepts(t) && s == rfc3339_text(t.secs, t.nanos)
}

/// Calls `chrono::Utc::now().to_rfc3339()`. The instant depends on the clock;
/// what holds of every outcome is that the text is `to_rfc3339` of an instant
/// that `DateTime::from_timestamp` accepts, since `Utc::now` builds it so.
#[verifier::external_body]
pub(crate) fn now_rfc3339() -> (s: String)
    ensures
        is_stamp(s@),
{
    chrono::Utc::now().to_rfc3339()
}

/// An instant as nanoseconds since the epoch.
pub open spec fn nanos_since_epoch(t: UtcTime) -> int {
    t.secs * 1_000_000_000 + t.nanos
}

/// Outside leap seconds, one instant is not later than another exactly when it
/// is at most as many nanoseconds after the epoch: the sub-second part counts.
pub proof fn lemma_time_le_is_instant_order(a: UtcTime, b: UtcTime)
    requires
        a.nanos < 1_000_000_000,
        b.nanos < 1_000_000_000,
    ensures
        time_le(a, b) <==> nanos_since_epoch(a) <= nanos_since_epoch(b),
{
}

/// The order of instants is total: of any two, one is not later than the other.
pub proof fn lemma_time_le_total(a: UtcTime, b: UtcTime)
    ensures
        time_le(a, b) || time_le(b, a),
        time_le(a, b) && time_le(b, a) ==> a == b,
{
}

} // verus!
