//! Per-client visibility of a replicated entity, and the instruction each
//! change of visibility sends.

use vstd::prelude::*;
use crate::client_set::ClientId;

verus! {

/// Visibility of one entity for one client.
#[derive(Debug, Clone, Copy, PartialEq, Eq, Structural)]
pub enum ClientVisibility {
    /// Became visible this tick: the client gets a full spawn.
    Gained,
    /// Visible before and still visible: the client gets updates only.
    Maintained,
    /// Became invisible this tick: the client gets a despawn, then the record goes.
    Lost,
}

/// What is sent to a client about an entity.
#[derive(Debug, Clone, Copy, PartialEq, Eq, Structural)]
pub enum ReplicationInstruction {
    Spawn,
    Update,
    Despawn,
}

/// The record that follows `prev` once the entity is evaluated as `visible`
/// (or not) for the client; `None` means no record.
pub open spec fn next_visibility_spec(prev: Option<ClientVisibility>, visible: bool) -> Option<
    ClientVisibility,
> {
    match prev {
        None => if visible {
            Some(ClientVisibility::Gained)
        } else {
            None
        },
        Some(ClientVisibility::Lost) => None,
        Some(_) => if visible {
            Some(ClientVisibility::Maintained)
        } else {
            Some(ClientVisibility::Lost)
        },
    }
}

/// The instruction that a record in state `v` sends this tick.
pub open spec fn instruction_spec(v: ClientVisibility) -> ReplicationInstruction {
    match v {
        ClientVisibility::Gained => ReplicationInstruction::Spawn,
        ClientVisibility::Maintained => ReplicationInstruction::Update,
        ClientVisibility::Lost => ReplicationInstruction::Despawn,
    }
}

/// The instruction sent when the record `prev` is re-evaluated as `visible`.
pub open spec fn emitted(prev: Option<ClientVisibility>, visible: bool) -> Option<ReplicationInstruction> {
    match next_visibility_spec(prev, visible) {
        Some(v) => Some(instruction_spec(v)),
        None => None,
    }
}

/// Computes the next visibility record from the previous one and whether the
/// entity is now eligible for the client.
pub fn next_visibility(prev: Option<ClientVisibility>, visible: bool) -> (r: Option<
    ClientVisibility,
>)
    ensures
        r == next_visibility_spec(prev, visible),
{
    match prev {
        None => if visible {
            Some(ClientVisibility::Gained)
        } else {
            None
        },
        Some(ClientVisibility::Lost) => None,
        Some(_) => if visible {
            Some(ClientVisibility::Maintained)
        } else {
            Some(ClientVisibility::Lost)
        },
    }
}

/// The instruction sent to a client whose record is `v`.
pub fn instruction_for(v: ClientVisibility) -> (r: ReplicationInstruction)
    ensures
        r == instruction_spec(v),
{
    match v {
        ClientVisibility::Gained => ReplicationInstruction::Spawn,
        ClientVisibility::Maintained => ReplicationInstruction::Update,
        ClientVisibility::Lost => ReplicationInstruction::Despawn,
    }
}

/// No record for any client.
pub open spec fn empty_records() -> Map<ClientId, ClientVisibility> {
    Map::empty()
}

/// The visibility records of one entity, keyed by client, backed by bevy's
/// `HashMap`. Its contents are `visibility_cache_contents(c)`.
#[verifier::external_body]
pub struct VisibilityCache {
    inner: bevy::utils::HashMap<ClientId, ClientVisibility>,
}

/// The records held by a `VisibilityCache`.
pub uninterp spec fn visibility_cache_contents(c: VisibilityCache) -> Map<
    ClientId,
    ClientVisibility,
>;

impl Clone for VisibilityCache {
    /// Relies on hashbrown's `Clone` for `HashMap`: the copy holds the same records.
    #[verifier::external_body]
    fn clone(&self) -> (r: VisibilityCache)
        ensures
            visibility_cache_contents(r) == visibility_cache_contents(*self),
    {
        VisibilityCache { inner: self.inner.clone() }
    }
}

impl VisibilityCache {
    /// Relies on hashbrown's `HashMap::default`: a new map is empty.
    #[verifier::external_body]
    fn empty_map() -> (r: VisibilityCache)
        ensures
            visibility_cache_contents(r) == empty_records(),
    {
        VisibilityCache { inner: bevy::utils::HashMap::default() }
    }

    /// A cache with no record.
    pub fn new() -> (r: VisibilityCache)
        ensures
            visibility_cache_contents(r) == empty_records(),
    {
        VisibilityCache::empty_map()
    }

    /// Relies on hashbrown's `HashMap::get`: the record of `client`, if any.
    #[verifier::external_body]
    fn get(&self, client: ClientId) -> (r: Option<ClientVisibility>)
        ensures
            r == (if visibility_cache_contents(*self).contains_key(client) {
                Some(visibility_cache_contents(*self)[client])
            } else {
                None
            }),
    {
        self.inner.get(&client).copied()
    }

    /// Relies on hashbrown's `HashMap::insert`: the record of `client` becomes `v`.
    #[verifier::external_body]
    fn insert(&mut self, client: ClientId, v: ClientVisibility)
        ensures
            visibility_cache_contents(*final(self)) == visibility_cache_contents(*old(self)).insert(
                client,
                v,
            ),
    {
        self.inner.insert(client, v);
    }

    /// Relies on hashbrown's `HashMap::remove`: `client` has no record afterwards.
    #[verifier::external_body]
    fn remove(&mut self, client: ClientId)
        ensures
            visibility_cache_contents(*final(self)) == visibility_cache_contents(
                *old(self),
            ).remove(client),
    {
        self.inner.remove(&client);
    }

    /// The current record of `client`, if any.
    pub fn visibility_of(&self, client: ClientId) -> (r: Option<ClientVisibility>)
        ensures
            r == (if visibility_cache_contents(*self).contains_key(client) {
                Some(visibility_cache_contents(*self)[client])
            } else {
                None
            }),
    {
        self.get(client)
    }

    /// Re-evaluates the entity for `client`: stores the record that follows
    /// the current one, and returns the instruction it sends, if any.
    pub fn update(&mut self, client: ClientId, visible: bool) -> (r: Option<ReplicationInstruction>)
        ensures
            ({
                let prev = if visibility_cache_contents(*old(self)).contains_key(client) {
                    Some(visibility_cache_contents(*old(self))[client])
                } else {
                    None
                };
                let next = next_visibility_spec(prev, visible);
                &&& visibility_cache_contents(*final(self)) == (match next {
                    Some(v) => visibility_cache_contents(*old(self)).insert(client, v),
                    None => visibility_cache_contents(*old(self)).remove(client),
                })
                &&& r == emitted(prev, visible)
            }),
    {
        let prev = self.get(client);
        match next_visibility(prev, visible) {
            Some(v) => {
                self.insert(client, v);
                Some(instruction_for(v))
            },
            None => {
                self.remove(client);
                None
            },
        }
    }
}

/// A record becomes `Gained` only where there was none, and then sends a
/// spawn; where there is no record, the first instruction sent is a spawn,
/// never an update or a despawn.
pub proof fn lemma_gained_first_sends_spawn(prev: Option<ClientVisibility>, visible: bool)
    ensures
        next_visibility_spec(prev, visible) == Some(ClientVisibility::Gained) ==> prev is None
            && emitted(prev, visible) == Some(ReplicationInstruction::Spawn),
        prev is None ==> emitted(prev, visible) is None || emitted(prev, visible) == Some(
            ReplicationInstruction::Spawn,
        ),
{
}

} // verus!
