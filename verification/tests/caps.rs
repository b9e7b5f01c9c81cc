use vprog::layout::Layout;
use vprog::parts::WithdrawalCaps;

fn caps(capacity: i64, total: i64, start: u64, length: u64) -> WithdrawalCaps {
    WithdrawalCaps {
        config_capacity: capacity,
        current_total: total,
        last_interval_start_timestamp: start,
        config_interval_length_seconds: length,
    }
}

#[test]
fn debit_within_the_interval_adds_to_the_total() {
    let mut c = caps(100, 10, 1000, 60);
    assert!(c.try_debit(90, 1060));
    assert_eq!(c, caps(100, 100, 1000, 60));
    assert!(!c.try_debit(1, 1060));
    assert_eq!(c, caps(100, 100, 1000, 60));
    assert!(c.try_debit(0, 1000));
    assert_eq!(c.current_total, 100);
}

#[test]
fn total_resets_once_the_interval_is_over() {
    let mut c = caps(100, 100, 1000, 60);
    c.advance_to(1060);
    assert_eq!(c, caps(100, 100, 1000, 60));
    c.advance_to(1061);
    assert_eq!(c, caps(100, 0, 1061, 60));
    let mut c = caps(100, 100, 1000, 60);
    assert!(c.try_debit(100, 5000));
    assert_eq!(c, caps(100, 100, 5000, 60));
}

#[test]
fn refused_debit_still_observes_the_time() {
    let mut c = caps(100, 40, 1000, 60);
    assert!(!c.try_debit(101, 2000));
    assert_eq!(c, caps(100, 0, 2000, 60));
}

#[test]
fn interval_that_cannot_end_never_resets() {
    let mut c = caps(5, 5, u64::MAX, 1);
    c.advance_to(u64::MAX);
    assert_eq!(c.current_total, 5);
    assert!(!c.try_debit(1, u64::MAX));
    let mut c = caps(5, 5, 10, u64::MAX - 10);
    c.advance_to(u64::MAX);
    assert_eq!(c.current_total, 5);
}

#[test]
fn large_amounts_do_not_wrap() {
    let mut c = caps(i64::MAX, i64::MAX - 1, 0, 10);
    assert!(!c.try_debit(u64::MAX, 5));
    assert_eq!(c.current_total, i64::MAX - 1);
    assert!(c.try_debit(1, 5));
    assert_eq!(c.current_total, i64::MAX);
    let mut c = caps(-1, i64::MIN, 0, 10);
    assert!(!c.try_debit(0, 11));
    assert_eq!(c, caps(-1, 0, 11, 10));
    let mut c = caps(0, i64::MIN, 0, 10);
    assert!(c.try_debit(1 << 63, 5));
    assert_eq!(c.current_total, 0);
}

#[test]
fn blank_cap_allows_nothing_but_zero() {
    let mut c = WithdrawalCaps::zeroed();
    assert!(c.try_debit(0, 0));
    assert!(!c.try_debit(1, 0));
    assert_eq!(c, WithdrawalCaps::zeroed());
}
