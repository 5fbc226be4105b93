use lightyear::network_target::NetworkTarget;
use lightyear::replication::{
    ComponentSyncMode, Replicate, ReplicationGroup, ReplicationGroupId, ReplicationMode,
    ShouldBeInterpolated, ShouldBePredicted,
};
use lightyear::visibility::{
    next_visibility, ClientVisibility, ReplicationInstruction, VisibilityCache,
};

#[test]
fn replicate_default_values() {
    let r = Replicate::default();
    assert_eq!(r.replication_target, NetworkTarget::All);
    assert_eq!(r.prediction_target, NetworkTarget::Nobody);
    assert_eq!(r.interpolation_target, NetworkTarget::Nobody);
    assert_eq!(r.replication_mode, ReplicationMode::NetworkTarget);
    assert_eq!(r.replication_group, ReplicationGroup::FromEntity);
    assert_eq!(r.replication_clients_cache.visibility_of(0), None);
}

#[test]
fn group_id_from_entity_uses_entity_bits() {
    let r = Replicate::default();
    assert_eq!(r.group_id(Some(42)), ReplicationGroupId(42));
}

#[test]
fn group_id_explicit_ignores_entity() {
    let mut r = Replicate::default();
    r.replication_group = ReplicationGroup::Group(7);
    assert_eq!(r.group_id(Some(42)), ReplicationGroupId(7));
    assert_eq!(r.group_id(None), ReplicationGroupId(7));
}

#[test]
fn markers_are_never_synced_and_reference_no_entity() {
    assert_eq!(ShouldBePredicted::mode(), ComponentSyncMode::Never);
    assert_eq!(ShouldBeInterpolated::mode(), ComponentSyncMode::Never);
    assert!(ShouldBePredicted.entities().is_empty());
    assert!(ShouldBeInterpolated.entities().is_empty());
}

#[test]
fn visibility_transition_table() {
    assert_eq!(next_visibility(None, true), Some(ClientVisibility::Gained));
    assert_eq!(next_visibility(None, false), None);
    assert_eq!(next_visibility(Some(ClientVisibility::Gained), true), Some(ClientVisibility::Maintained));
    assert_eq!(next_visibility(Some(ClientVisibility::Maintained), true), Some(ClientVisibility::Maintained));
    assert_eq!(next_visibility(Some(ClientVisibility::Gained), false), Some(ClientVisibility::Lost));
    assert_eq!(next_visibility(Some(ClientVisibility::Maintained), false), Some(ClientVisibility::Lost));
    assert_eq!(next_visibility(Some(ClientVisibility::Lost), true), None);
    assert_eq!(next_visibility(Some(ClientVisibility::Lost), false), None);
}

#[test]
fn gained_client_first_gets_spawn() {
    let mut cache = VisibilityCache::new();
    assert_eq!(cache.update(3, false), None);
    assert_eq!(cache.visibility_of(3), None);
    assert_eq!(cache.update(3, true), Some(ReplicationInstruction::Spawn));
    assert_eq!(cache.visibility_of(3), Some(ClientVisibility::Gained));
    assert_eq!(cache.update(3, true), Some(ReplicationInstruction::Update));
    assert_eq!(cache.visibility_of(3), Some(ClientVisibility::Maintained));
    assert_eq!(cache.update(3, false), Some(ReplicationInstruction::Despawn));
    assert_eq!(cache.visibility_of(3), Some(ClientVisibility::Lost));
    assert_eq!(cache.update(3, true), None);
    assert_eq!(cache.visibility_of(3), None);
    assert_eq!(cache.visibility_of(4), None);
}

#[test]
fn eligibility_by_network_target() {
    let mut r = Replicate::default();
    r.replication_target = NetworkTarget::Only(vec![2]);
    assert!(r.eligible_for(2, &vec![], &vec![]));
    assert!(!r.eligible_for(3, &vec![1], &vec![1]));
}

#[test]
fn eligibility_by_room() {
    let mut r = Replicate::default();
    r.replication_mode = ReplicationMode::Room;
    r.replication_target = NetworkTarget::Nobody;
    assert!(r.eligible_for(3, &vec![1, 4], &vec![5, 4]));
    assert!(!r.eligible_for(3, &vec![1, 4], &vec![5, 6]));
    assert!(!r.eligible_for(3, &vec![], &vec![5]));
}

#[test]
fn cloned_replicate_keeps_visibility_records() {
    let mut r = Replicate::default();
    assert_eq!(r.replication_clients_cache.update(9, true), Some(ReplicationInstruction::Spawn));
    let copy = r.clone();
    assert_eq!(copy.replication_clients_cache.visibility_of(9), Some(ClientVisibility::Gained));
    assert_eq!(copy.replication_clients_cache.visibility_of(8), None);
}
