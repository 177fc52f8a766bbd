use crabby_proxy::runtime::{micros_since_epoch, new_v4_id, utc_now_micros};

#[test]
fn fresh_ids_are_version_4_and_distinct() {
    let a = new_v4_id().expect("random source");
    let b = new_v4_id().expect("random source");
    assert_eq!((a >> 76) & 0xf, 4);
    assert_eq!((a >> 62) & 0x3, 2);
    assert_eq!((b >> 76) & 0xf, 4);
    assert_ne!(a, b);
}

#[test]
fn clock_reads_after_the_epoch() {
    let m = utc_now_micros().expect("clock after the epoch");
    // later than 2020-01-01T00:00:00Z
    assert!(m > 1_577_836_800_000_000);
}

#[test]
fn epoch_readings_become_microseconds() {
    assert_eq!(micros_since_epoch(None), None);
    assert_eq!(micros_since_epoch(Some((0, 0))), Some(0));
    assert_eq!(micros_since_epoch(Some((1, 999_999_999))), Some(1_999_999));
    assert_eq!(micros_since_epoch(Some((1_700_000_000, 123_456_789))), Some(1_700_000_000_123_456));
    // a leap second only in the 59th second of a minute
    assert_eq!(micros_since_epoch(Some((59, 1_500_000_000))), Some(60_500_000));
    assert_eq!(micros_since_epoch(Some((58, 1_500_000_000))), None);
    assert_eq!(micros_since_epoch(Some((59, 2_000_000_000))), None);
    // chrono's last second, and the one after it
    assert_eq!(
        micros_since_epoch(Some((8_210_266_876_799, 0))),
        Some(8_210_266_876_799_000_000)
    );
    assert_eq!(micros_since_epoch(Some((8_210_266_876_800, 0))), None);
    // beyond i64
    assert_eq!(micros_since_epoch(Some((u64::MAX, 0))), None);
}
