use lightyear::group::{flush_instructions, GroupBuffer};
use lightyear::replication::ReplicationGroupId;
use lightyear::visibility::ReplicationInstruction::{Despawn, Spawn, Update};

#[test]
fn flush_orders_spawn_update_despawn() {
    let mut b = GroupBuffer::new(ReplicationGroupId(5));
    b.buffer(1, Spawn);
    b.buffer(2, Update);
    b.buffer(1, Update);
    b.buffer(2, Despawn);
    b.buffer(3, Update);
    b.buffer(3, Spawn);
    let msg = b.flush();
    assert_eq!(msg, vec![(1, Spawn), (3, Spawn), (1, Update), (3, Update), (2, Despawn)]);
    assert!(b.pending.is_empty());
    assert_eq!(b.group, ReplicationGroupId(5));
    assert!(b.flush().is_empty());
}

#[test]
fn flush_of_empty_buffer_is_empty() {
    assert!(flush_instructions(&vec![]).is_empty());
}

#[test]
fn flush_despawn_suppresses_updates_of_same_entity() {
    let msg = flush_instructions(&vec![(7, Update), (7, Despawn), (7, Update)]);
    assert_eq!(msg, vec![(7, Despawn)]);
}
