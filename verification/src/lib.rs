//! Live-state telemetry bridge: snapshots a simulation's entities, attribute
//! records and singleton records once per tick, assembles one JSON envelope,
//! frames it with a terminator character and splits it into datagram-sized
//! chunks for a best-effort transport. A narrow inbound channel lets an
//! observer push updated values back into singleton records.

use vstd::prelude::*;

pub mod bundle;
pub mod channel;
pub mod connection;
pub mod envelope;
pub mod json;
pub mod producers;
pub mod sync_editor;
pub mod transport;
pub mod write_resource;

verus! {

/// Largest number of bytes placed into a single outgoing datagram.
pub const MAX_PACKET_SIZE: usize = 32768;

/// A live entity slot: an index paired with a generation that distinguishes
/// reuses of the same index.
pub struct SerializableEntity {
    pub id: u32,
    pub generation: i32,
}

/// One fragment on the outbound channel: an already-serialized,
/// self-contained unit of text tagged with its category.
pub enum SerializedData {
    /// A singleton-record fragment.
    Resource(String),
    /// An attribute-record fragment.
    Component(String),
    /// A free-form message fragment.
    Message(String),
}

} // verus!
