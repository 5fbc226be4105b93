use lightyear::interpolation::{interpolate, SnapshotHistory};

#[test]
fn interpolate_exact_values() {
    assert_eq!(interpolate(0, 10, 1, 4), 2);
    assert_eq!(interpolate(10, 0, 1, 4), 8);
    assert_eq!(interpolate(-5, 5, 1, 2), 0);
    assert_eq!(interpolate(3, 9, 0, 7), 3);
    assert_eq!(interpolate(3, 9, 7, 7), 9);
}

#[test]
fn interpolate_extreme_values() {
    assert_eq!(interpolate(i64::MIN, i64::MAX, 1, 1), i64::MAX);
    assert_eq!(interpolate(i64::MAX, i64::MIN, 1, 2), 0);
    assert_eq!(interpolate(i64::MIN, i64::MAX, u32::MAX - 1, u32::MAX) <= i64::MAX, true);
}

#[test]
fn interpolate_is_monotonic_and_bounded() {
    let mut prev = interpolate(-7, 13, 0, 9);
    for n in 1..=9 {
        let v = interpolate(-7, 13, n, 9);
        assert!(v >= prev);
        assert!(v >= -7 && v <= 13);
        prev = v;
    }
}

#[test]
fn history_samples_brackets_and_holds() {
    let mut h = SnapshotHistory::new();
    assert_eq!(h.sample(3), None);
    assert!(h.record(10, 0));
    assert!(h.record(20, 100));
    assert!(!h.record(15, 7));
    assert!(!h.record(20, 7));
    assert_eq!(h.sample(15), Some(50));
    assert_eq!(h.sample(10), Some(0));
    assert_eq!(h.sample(20), Some(100));
    assert_eq!(h.sample(25), Some(100));
    assert_eq!(h.sample(5), Some(0));
}

#[test]
fn history_prune_keeps_lower_bracket() {
    let mut h = SnapshotHistory::new();
    h.record(10, 0);
    h.record(20, 100);
    h.record(30, 200);
    h.prune(18);
    assert_eq!(h.entries, vec![(10, 0), (20, 100), (30, 200)]);
    h.prune(25);
    assert_eq!(h.entries, vec![(20, 100), (30, 200)]);
    assert_eq!(h.sample(25), Some(150));
    h.prune(40);
    assert_eq!(h.entries, vec![(30, 200)]);
    assert_eq!(h.sample(45), Some(200));
}

#[test]
fn history_prune_drops_all_before_newest_at_horizon() {
    let mut h = SnapshotHistory::new();
    h.record(1, 1);
    h.record(2, 2);
    h.record(3, 3);
    h.record(9, 9);
    h.prune(5);
    assert_eq!(h.entries, vec![(3, 3), (9, 9)]);
    h.prune(0);
    assert_eq!(h.entries, vec![(3, 3), (9, 9)]);
}
