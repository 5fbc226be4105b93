//! Components that describe how an entity is replicated.

use vstd::prelude::*;
use crate::client_set::ClientId;
use crate::network_target::NetworkTarget;
use crate::visibility::{VisibilityCache, visibility_cache_contents, empty_records};

verus! {

/// Marker inserted on each replicated entity, to notice when it is despawned.
#[derive(Debug, Clone, Copy)]
pub struct DespawnTracker;

/// How the replication group of an entity is chosen.
#[derive(Debug, Clone, Copy, PartialEq, Eq, Structural)]
pub enum ReplicationGroup {
    /// The group id is the id of the entity itself.
    FromEntity,
    /// An explicit group id; it must not coincide with any entity id.
    Group(u64),
}

impl Default for ReplicationGroup {
    fn default() -> (r: ReplicationGroup)
        ensures
            r == ReplicationGroup::FromEntity,
    {
        ReplicationGroup::FromEntity
    }
}

/// Identifier of a replication group: entities that spawn, update and
/// despawn together.
#[derive(Debug, Default, Clone, Copy, PartialEq, Eq, Hash, Structural)]
pub struct ReplicationGroupId(pub u64);

/// How the clients that receive an entity are selected.
#[derive(Debug, Clone, Copy, PartialEq, Eq, Structural)]
pub enum ReplicationMode {
    /// Only clients that share a room with the entity.
    Room,
    /// The clients of the entity's `NetworkTarget`, regardless of rooms.
    NetworkTarget,
}

impl Default for ReplicationMode {
    fn default() -> (r: ReplicationMode)
        ensures
            r == ReplicationMode::NetworkTarget,
    {
        ReplicationMode::NetworkTarget
    }
}

/// How a component type is kept in sync between server and client.
#[derive(Debug, Clone, Copy, PartialEq, Eq, Structural)]
pub enum ComponentSyncMode {
    /// Continuously diffed and replicated; takes part in prediction.
    Full,
    /// Replicated at spawn and on every change, never predicted.
    Simple,
    /// Sent only with the spawn.
    Once,
    /// Never replicated.
    Never,
}

/// Replication intent of one entity.
#[derive(Clone)]
pub struct Replicate {
    /// Which clients this entity is replicated to.
    pub replication_target: NetworkTarget,
    /// Which clients predict this entity.
    pub prediction_target: NetworkTarget,
    /// Which clients interpolate this entity.
    pub interpolation_target: NetworkTarget,
    /// Visibility of the entity for each client it is currently replicated to.
    pub replication_clients_cache: VisibilityCache,
    pub replication_mode: ReplicationMode,
    pub replication_group: ReplicationGroup,
}

impl Default for Replicate {
    fn default() -> (r: Replicate)
        ensures
            r.replication_target is All,
            r.prediction_target is Nobody,
            r.interpolation_target is Nobody,
            visibility_cache_contents(r.replication_clients_cache) == empty_records(),
            r.replication_mode == ReplicationMode::NetworkTarget,
            r.replication_group == ReplicationGroup::FromEntity,
    {
        Replicate {
            replication_target: NetworkTarget::All,
            prediction_target: NetworkTarget::Nobody,
            interpolation_target: NetworkTarget::Nobody,
            replication_clients_cache: VisibilityCache::new(),
            replication_mode: ReplicationMode::default(),
            replication_group: ReplicationGroup::default(),
        }
    }
}

/// Identifier of a room.
pub type RoomId = u64;

/// Whether `ids` holds `id`.
fn holds_room(ids: &Vec<RoomId>, id: RoomId) -> (r: bool)
    ensures
        r == ids@.contains(id),
{
    let mut i: usize = 0;
    while i < ids.len()
        invariant
            i <= ids@.len(),
            forall|j: int| 0 <= j < i ==> ids@[j] != id,
        decreases ids.len() - i,
    {
        if ids[i] == id {
            return true;
        }
        i = i + 1;
    }
    false
}

/// Whether two room lists share a room.
pub open spec fn share_room(a: Seq<RoomId>, b: Seq<RoomId>) -> bool {
    exists|i: int| 0 <= i < a.len() && b.contains(#[trigger] a[i])
}

impl Replicate {
    /// Whether the entity is eligible for replication to `client` this tick,
    /// given the rooms of the entity and those of the client: by the
    /// replication target in `NetworkTarget` mode, by a shared room in
    /// `Room` mode.
    pub fn eligible_for(&self, client: ClientId, entity_rooms: &Vec<RoomId>, client_rooms: &Vec<RoomId>) -> (r: bool)
        ensures
            r == (match self.replication_mode {
                ReplicationMode::NetworkTarget => self.replication_target@.includes(client),
                ReplicationMode::Room => share_room(entity_rooms@, client_rooms@),
            }),
    {
        match self.replication_mode {
            ReplicationMode::NetworkTarget => self.replication_target.should_send_to(&client),
            ReplicationMode::Room => {
                let mut i: usize = 0;
                while i < entity_rooms.len()
                    invariant
                        i <= entity_rooms@.len(),
                        self.replication_mode == ReplicationMode::Room,
                        forall|j: int| 0 <= j < i ==> !client_rooms@.contains(#[trigger] entity_rooms@[j]),
                    decreases entity_rooms.len() - i,
                {
                    if holds_room(client_rooms, entity_rooms[i]) {
                        assert(client_rooms@.contains(entity_rooms@[i as int]));
                        return true;
                    }
                    i = i + 1;
                }
                false
            },
        }
    }

    /// The group id of the entity whose bits (its storage identifier) are
    /// `entity`: those bits for `FromEntity`, the explicit id otherwise.
    pub fn group_id(&self, entity: Option<u64>) -> (r: ReplicationGroupId)
        requires
            self.replication_group is FromEntity ==> entity is Some,
        ensures
            r.0 == (match self.replication_group {
                ReplicationGroup::FromEntity => entity->Some_0,
                ReplicationGroup::Group(id) => id,
            }),
    {
        match self.replication_group {
            ReplicationGroup::FromEntity => ReplicationGroupId(entity.unwrap()),
            ReplicationGroup::Group(id) => ReplicationGroupId(id),
        }
    }
}

/// Marker component: the entity should be interpolated on the client.
#[derive(Debug, Clone, PartialEq)]
pub struct ShouldBeInterpolated;

impl ShouldBeInterpolated {
    /// The marker itself is never kept in sync.
    pub fn mode() -> (r: ComponentSyncMode)
        ensures
            r == ComponentSyncMode::Never,
    {
        ComponentSyncMode::Never
    }

    /// The entities the marker refers to (as entity bits): none.
    pub fn entities(&self) -> (r: Vec<u64>)
        ensures
            r@.len() == 0,
    {
        Vec::new()
    }
}

/// Marker component: the entity should be predicted on the client.
#[derive(Debug, Clone, PartialEq)]
pub struct ShouldBePredicted;

impl ShouldBePredicted {
    /// The marker itself is never kept in sync.
    pub fn mode() -> (r: ComponentSyncMode)
        ensures
            r == ComponentSyncMode::Never,
    {
        ComponentSyncMode::Never
    }

    /// The entities the marker refers to (as entity bits): none.
    pub fn entities(&self) -> (r: Vec<u64>)
        ensures
            r@.len() == 0,
    {
        Vec::new()
    }
}

} // verus!
