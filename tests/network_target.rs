use lightyear::network_target::NetworkTarget;

#[test]
fn test_network_target() {
    let mut target = NetworkTarget::All;
    assert!(target.should_send_to(&0));
    target.exclude(vec![1, 2]);
    assert_eq!(target, NetworkTarget::AllExcept(vec![1, 2]));

    target = NetworkTarget::AllExcept(vec![0]);
    assert!(!target.should_send_to(&0));
    assert!(target.should_send_to(&1));
    target.exclude(vec![0, 1]);
    assert!(matches!(target, NetworkTarget::AllExcept(_)));

    if let NetworkTarget::AllExcept(ids) = target {
        assert!(ids.contains(&0));
        assert!(ids.contains(&1));
    }

    target = NetworkTarget::Only(vec![0]);
    assert!(target.should_send_to(&0));
    assert!(!target.should_send_to(&1));
    target.exclude(vec![1]);
    assert_eq!(target, NetworkTarget::Only(vec![0]));
    target.exclude(vec![0, 2]);
    assert_eq!(target, NetworkTarget::Nobody);

    target = NetworkTarget::Nobody;
    assert!(!target.should_send_to(&0));
    target.exclude(vec![1]);
    assert_eq!(target, NetworkTarget::Nobody);
}

fn sorted_ids(target: &NetworkTarget) -> Vec<u64> {
    let mut ids = match target {
        NetworkTarget::AllExcept(v) | NetworkTarget::Only(v) => v.clone(),
        _ => Vec::new(),
    };
    ids.sort();
    ids
}

#[test]
fn exclude_twice_equals_exclude_once() {
    let starts = vec![
        NetworkTarget::All,
        NetworkTarget::AllExcept(vec![3]),
        NetworkTarget::Only(vec![1, 2, 5]),
        NetworkTarget::Only(vec![1]),
        NetworkTarget::Nobody,
    ];
    for start in starts {
        let mut once = start.clone();
        once.exclude(vec![1, 4]);
        let mut twice = once.clone();
        twice.exclude(vec![1, 4]);
        assert_eq!(std::mem::discriminant(&once), std::mem::discriminant(&twice));
        assert_eq!(sorted_ids(&once), sorted_ids(&twice));
    }
}

#[test]
fn all_except_union_drops_repeated_ids() {
    let mut target = NetworkTarget::AllExcept(vec![0, 0, 3]);
    target.exclude(vec![3, 4, 4]);
    assert!(matches!(target, NetworkTarget::AllExcept(_)));
    assert_eq!(sorted_ids(&target), vec![0, 3, 4]);
    assert!(!target.should_send_to(&4));
    assert!(target.should_send_to(&5));
}

#[test]
fn all_excluding_nothing_keeps_everyone() {
    let mut target = NetworkTarget::All;
    target.exclude(vec![]);
    assert_eq!(target, NetworkTarget::AllExcept(vec![]));
    assert!(target.should_send_to(&7));
}

#[test]
fn only_keeps_the_clients_not_excluded() {
    let mut target = NetworkTarget::Only(vec![1, 2, 3]);
    target.exclude(vec![2]);
    assert_eq!(sorted_ids(&target), vec![1, 3]);
    assert!(target.should_send_to(&1));
    assert!(!target.should_send_to(&2));
}

#[test]
fn default_target_is_nobody() {
    assert_eq!(NetworkTarget::default(), NetworkTarget::Nobody);
}

#[test]
fn unknown_client_is_inert() {
    let target = NetworkTarget::Only(vec![10]);
    assert!(!target.should_send_to(&u64::MAX));
    let target = NetworkTarget::AllExcept(vec![u64::MAX]);
    assert!(!target.should_send_to(&u64::MAX));
}
