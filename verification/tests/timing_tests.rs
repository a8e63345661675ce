use deepl_client::{align_timestamp, alignment_count, random_number_id, timestamp_for_i_count};
use std::time::SystemTime;

#[test]
fn test_timestamp() {
    let timestamp = SystemTime::now()
        .duration_since(SystemTime::UNIX_EPOCH)
        .expect("Time went backwards")
        .as_millis();
    println!("{}", timestamp);

    let t = SystemTime::now()
        .duration_since(SystemTime::UNIX_EPOCH)
        .expect("Time went backwards")
        .as_secs();
    println!("{}", t);
}

#[test]
fn align_zero_count_is_identity() {
    assert_eq!(align_timestamp(0, 0), 0);
    assert_eq!(align_timestamp(1000, 0), 1000);
    assert_eq!(align_timestamp(1234567890123, 0), 1234567890123);
}

#[test]
fn align_nonzero_count_rounds_up_past_raw() {
    // count 3 gives modulus 4: floor to a multiple of 4, then add 4.
    assert_eq!(align_timestamp(1001, 3), 1004);
    // a raw value already on the modulus still moves strictly up
    assert_eq!(align_timestamp(1000, 3), 1004);
    assert_eq!(align_timestamp(7, 1), 8);
    let raw: u128 = 1696000000000;
    for count in 1..50u128 {
        let aligned: u128 = align_timestamp(raw, count);
        assert!(aligned > raw);
        assert_eq!(aligned % (count + 1), 0);
    }
}

#[test]
fn timestamp_for_zero_count_is_raw_clock() {
    let before: u128 = SystemTime::now()
        .duration_since(SystemTime::UNIX_EPOCH)
        .expect("Time went backwards")
        .as_millis();
    let t: u128 = timestamp_for_i_count(0);
    let after: u128 = SystemTime::now()
        .duration_since(SystemTime::UNIX_EPOCH)
        .expect("Time went backwards")
        .as_millis();
    assert!(before <= t && t <= after);
}

#[test]
fn timestamp_for_nonzero_count_is_aligned() {
    let before: u128 = SystemTime::now()
        .duration_since(SystemTime::UNIX_EPOCH)
        .expect("Time went backwards")
        .as_millis();
    let t: u128 = timestamp_for_i_count(5);
    assert_eq!(t % 6, 0);
    assert!(t > before);
}

#[test]
fn alignment_count_counts_line_feeds_from_init() {
    assert_eq!(alignment_count("", 5), 5);
    assert_eq!(alignment_count("hello world", 1000), 1000);
    assert_eq!(alignment_count("hello\nworld", 1000), 1001);
    assert_eq!(alignment_count("\n\n\n", 0), 3);
    assert_eq!(alignment_count("a\r\nb\nc", 7), 9);
    // multi-byte characters contribute no 0x0A bytes
    assert_eq!(alignment_count("héllo→\n", 1), 2);
}

#[test]
fn random_id_is_in_band_and_granular() {
    for _ in 0..20 {
        let id: i64 = random_number_id();
        assert!((8_300_000_000..8_399_998_000).contains(&id));
        assert_eq!(id % 1000, 0);
    }
}
