use trust::clock::{
    initial_sequence_number, initial_sequence_number_at, seconds_or_epoch, unix_seconds,
};
use trust::seqnum::{advance_by, wrapping_le, wrapping_lt};

#[test]
fn advance_without_wrap() {
    assert_eq!(advance_by(0, 0), 0);
    assert_eq!(advance_by(1000, 24), 1024);
    assert_eq!(advance_by(u32::MAX - 1, 1), u32::MAX);
}

#[test]
fn advance_wraps_to_zero() {
    assert_eq!(advance_by(u32::MAX, 1), 0);
    assert_eq!(advance_by(u32::MAX - 1, 5), 3);
    assert_eq!(advance_by(0xffff_fff0, 0x20), 0x10);
}

#[test]
fn advance_takes_count_modulo_two_to_the_32() {
    if usize::BITS > 32 {
        let turn = 1usize << 32;
        assert_eq!(advance_by(7, turn), 7);
        assert_eq!(advance_by(7, turn + 3), 10);
        assert_eq!(advance_by(u32::MAX, turn + 1), 0);
    }
}

#[test]
fn advance_twice_is_advance_by_sum() {
    assert_eq!(advance_by(advance_by(0xffff_ff00, 0x80), 0x100), advance_by(0xffff_ff00, 0x180));
    assert_eq!(advance_by(advance_by(5, 6), 7), 18);
}

#[test]
fn wrapped_value_counts_as_later() {
    let before = u32::MAX - 1;
    let after = advance_by(before, 5);
    assert_eq!(after, 3);
    assert!(after < before);
    assert!(wrapping_lt(before, after));
    assert!(!wrapping_lt(after, before));
    assert!(wrapping_le(before, after));
    assert!(!wrapping_le(after, before));
}

#[test]
fn wrapping_lt_on_plain_values() {
    assert!(wrapping_lt(1, 2));
    assert!(!wrapping_lt(2, 1));
    assert!(!wrapping_lt(9, 9));
    assert!(wrapping_lt(0, 0x7fff_ffff));
    assert!(!wrapping_lt(0, 0x8000_0000));
    assert!(!wrapping_lt(0, 0x8000_0001));
    assert!(wrapping_lt(0x8000_0001, 0));
}

#[test]
fn wrapping_le_on_plain_values() {
    assert!(wrapping_le(9, 9));
    assert!(wrapping_le(1, 2));
    assert!(!wrapping_le(2, 1));
    assert!(wrapping_le(u32::MAX, 0));
    assert!(!wrapping_le(0, u32::MAX));
    assert!(wrapping_le(0, 0x7fff_ffff));
    assert!(!wrapping_le(0, 0x8000_0000));
}

#[test]
fn sequence_number_is_low_half_of_clock() {
    assert_eq!(initial_sequence_number_at(0), 0);
    assert_eq!(initial_sequence_number_at(1_700_000_000), 1_700_000_000);
    assert_eq!(initial_sequence_number_at(0x1_0000_0000), 0);
    assert_eq!(initial_sequence_number_at(0x1_0000_0005), 5);
    assert_eq!(initial_sequence_number_at(u64::MAX), u32::MAX);
}

#[test]
fn clock_reads_a_time_after_2020() {
    let seconds = unix_seconds();
    assert!(seconds > 1_577_836_800);
    let later = unix_seconds();
    assert!(later >= seconds);
    assert!(later - seconds < 60);
}

#[test]
fn clock_sequence_number_follows_clock() {
    let before = unix_seconds();
    let iss = initial_sequence_number();
    let after = unix_seconds();
    let candidates: Vec<u32> = (before..=after).map(initial_sequence_number_at).collect();
    assert!(candidates.contains(&iss));
}

#[test]
fn clock_before_the_epoch_reads_as_the_epoch() {
    assert_eq!(seconds_or_epoch(None), 0);
    assert_eq!(seconds_or_epoch(Some(0)), 0);
    assert_eq!(seconds_or_epoch(Some(1_700_000_000)), 1_700_000_000);
    assert_eq!(seconds_or_epoch(Some(u64::MAX)), u64::MAX);
}
