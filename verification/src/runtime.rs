//! Values that come from the environment: random identifiers and clock readings.
//! Nothing is known of them but what each item states; each source may fail,
//! and the callers handle that failure.
use std::time::{Instant, SystemTime};
use vstd::prelude::*;

verus! {

/// `std::time::Instant`, a reading of the monotonic clock, carried opaquely.
#[verifier::external_type_specification]
#[verifier::external_body]
pub struct ExInstant(Instant);

/// `std::time::SystemTime`, a reading of the system clock, carried opaquely.
#[verifier::external_type_specification]
#[verifier::external_body]
pub struct ExSystemTime(SystemTime);

/// `getrandom::fill` on a 16-byte buffer: `None` when the operating system's
/// random source fails. The bytes are random, so nothing is claimed of them.
#[verifier::external_body]
fn random_bytes16() -> Option<[u8; 16]> {
    let mut bytes = [0u8; 16];
    match getrandom::fill(&mut bytes) {
        Ok(()) => Some(bytes),
        Err(_) => None,
    }
}

/// Byte `i` (in big-endian order) of the version-4 UUID built from the random
/// bytes `b`: byte 6 carries version 4 in its high nibble, byte 8 the RFC 4122
/// variant in its two high bits, and every other byte is taken as it is.
pub open spec fn uuid_v4_byte(b: Seq<u8>, i: int) -> u8 {
    if i == 6 {
        (b[6] & 0x0fu8) | 0x40u8
    } else if i == 8 {
        (b[8] & 0x3fu8) | 0x80u8
    } else {
        b[i]
    }
}

/// `uuid::Builder::from_random_bytes(bytes).into_uuid().as_u128()`: the UUID
/// keeps the sixteen bytes, with the version and variant bits set as
/// `with_version(Version::Random)` and `with_variant(Variant::RFC4122)` set
/// them; `as_u128` reads the bytes in big-endian order.
#[verifier::external_body]
fn uuid_v4_from_bytes(bytes: [u8; 16]) -> (r: u128)
    ensures
        forall|i: int|
            0 <= i < 16 ==> ((r >> ((8 * (15 - i)) as u128)) & 0xffu128) as u8 == #[trigger] uuid_v4_byte(
                bytes@,
                i,
            ),
{
    uuid::Builder::from_random_bytes(bytes).into_uuid().as_u128()
}

/// The version nibble of a UUID, read from its 128-bit value, is 4 (random).
pub open spec fn is_v4_uuid(id: u128) -> bool {
    &&& (id >> 76u128) & 0xfu128 == 4
    &&& (id >> 62u128) & 0x3u128 == 2
}

/// A fresh random version-4 UUID (as its 128-bit value), the identifier that
/// `uuid::Uuid::new_v4` would give, drawn so that a failing random source is
/// reported as `None` rather than a panic.
pub fn new_v4_id() -> (r: Option<u128>)
    ensures
        r matches Some(id) ==> is_v4_uuid(id),
{
    match random_bytes16() {
        None => None,
        Some(bytes) => {
            let id = uuid_v4_from_bytes(bytes);
            let b6 = bytes[6];
            let b8 = bytes[8];
            assert(((id >> 72u128) & 0xffu128) as u8 == (b6 & 0x0fu8) | 0x40u8) by {
                assert(uuid_v4_byte(bytes@, 6) == (b6 & 0x0fu8) | 0x40u8);
            }
            assert(((id >> 56u128) & 0xffu128) as u8 == (b8 & 0x3fu8) | 0x80u8) by {
                assert(uuid_v4_byte(bytes@, 8) == (b8 & 0x3fu8) | 0x80u8);
            }
            assert((id >> 76u128) & 0xfu128 == 4) by (bit_vector)
                requires
                    ((id >> 72u128) & 0xffu128) as u8 == (b6 & 0x0fu8) | 0x40u8,
            ;
            assert((id >> 62u128) & 0x3u128 == 2) by (bit_vector)
                requires
                    ((id >> 56u128) & 0xffu128) as u8 == (b8 & 0x3fu8) | 0x80u8,
            ;
            Some(id)
        },
    }
}

/// `std::time::SystemTime::now`: the current reading of the system clock.
/// Nothing is claimed of the value.
#[verifier::external_body]
fn system_now() -> SystemTime {
    SystemTime::now()
}

/// `SystemTime::duration_since(UNIX_EPOCH)`, as whole seconds and the
/// sub-second nanoseconds (`Duration::as_secs`, `Duration::subsec_nanos`).
/// `None` when `t` lies before the epoch. `subsec_nanos` is documented to be
/// below one billion; which seconds come back depends on `t`, which is opaque.
#[verifier::external_body]
fn since_unix_epoch(t: &SystemTime) -> (r: Option<(u64, u32)>)
    ensures
        r matches Some(d) ==> d.1 < 1_000_000_000,
{
    match t.duration_since(std::time::UNIX_EPOCH) {
        Ok(d) => Some((d.as_secs(), d.subsec_nanos())),
        Err(_) => None,
    }
}

/// The last day chrono represents (December 31, 262142), counted in whole
/// days since the Unix epoch.
pub open spec fn chrono_last_epoch_day() -> int {
    95_026_236
}

/// What `timestamp_micros(secs, nanos)` gives for a time at or after the
/// epoch: `None` beyond chrono's last day, or for a nanosecond count that is
/// not below one billion (up to two billion only in the 59th second of a
/// minute, as a leap second); otherwise the microseconds since the epoch.
pub open spec fn chrono_micros(secs: i64, nanos: u32) -> Option<i64> {
    if secs / 86_400 <= chrono_last_epoch_day() && (nanos < 1_000_000_000 || (nanos
        < 2_000_000_000 && secs % 60 == 59)) {
        Some((secs * 1_000_000 + nanos / 1000) as i64)
    } else {
        None
    }
}

/// `chrono::DateTime::from_timestamp(secs, nanos)` read back with
/// `DateTime::timestamp_micros`. `from_timestamp` splits `secs` into days and
/// seconds of the day; it gives `None` when the day lies beyond December 31,
/// 262142 (or before chrono's first day, which is not stated here: the
/// clause is guarded to times at or after the epoch), and when the seconds
/// of the day and `nanos` make no valid time. Otherwise the timestamp
/// round-trips, so the microseconds are the seconds times a million plus the
/// whole microseconds of `nanos`.
#[verifier::external_body]
fn timestamp_micros(secs: i64, nanos: u32) -> (r: Option<i64>)
    ensures
        secs >= 0 ==> r == chrono_micros(secs, nanos),
        r matches Some(m) ==> m == secs * 1_000_000 + nanos / 1000,
{
    match chrono::DateTime::from_timestamp(secs, nanos) {
        Some(dt) => Some(dt.timestamp_micros()),
        None => None,
    }
}

/// What [`micros_since_epoch`] gives for a reading of the clock as seconds
/// and nanoseconds since the epoch (`None` for a clock before the epoch).
pub open spec fn epoch_micros(d: Option<(u64, u32)>) -> Option<i64> {
    match d {
        None => None,
        Some((secs, nanos)) => if secs > i64::MAX {
            None
        } else {
            chrono_micros(secs as i64, nanos)
        },
    }
}

/// Microseconds since the Unix epoch of a clock reading given as whole
/// seconds and nanoseconds since the epoch, as chrono computes them: `None`
/// for no reading, for seconds beyond `i64`, and outside chrono's range.
pub fn micros_since_epoch(d: Option<(u64, u32)>) -> (r: Option<i64>)
    ensures
        r == epoch_micros(d),
{
    match d {
        None => None,
        Some((secs, nanos)) => {
            if secs > 9_223_372_036_854_775_807u64 {
                None
            } else {
                timestamp_micros(secs as i64, nanos)
            }
        },
    }
}

/// The current time as microseconds since the Unix epoch, the value that
/// `chrono::Utc::now().timestamp_micros()` gives: [`micros_since_epoch`] of
/// the system clock's reading, so `None` where `Utc::now` would panic (a
/// clock before the epoch or outside chrono's range). Which reading that is
/// depends on the clock.
pub fn utc_now_micros() -> (r: Option<i64>)
    ensures
        exists|d: Option<(u64, u32)>|
            (d matches Some(x) ==> x.1 < 1_000_000_000) && r == #[trigger] epoch_micros(d),
        r matches Some(m) ==> m >= 0,
{
    let now = system_now();
    let reading = since_unix_epoch(&now);
    let r = micros_since_epoch(reading);
    assert(epoch_micros(reading) == r);
    r
}

/// `std::time::Instant::now`: the current reading of the monotonic clock.
/// Nothing is claimed of the value.
#[verifier::external_body]
pub(crate) fn instant_now() -> Instant {
    Instant::now()
}

} // verus!
