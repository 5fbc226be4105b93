//! Replication metadata for a client-server state-replication engine: which
//! clients receive an entity, how entities are grouped into atomic units, and
//! how per-client visibility evolves from tick to tick.

pub mod channel;
pub mod client_set;
pub mod group;
pub mod handshake;
pub mod interpolation;
pub mod network_target;
pub mod prediction;
pub mod replication;
pub mod visibility;
