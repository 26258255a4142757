//! Positional wire tuples for the telemetry records of a monitored node.
//!
//! A record is sent as a tuple of slots in a fixed order, without field
//! names: which field a slot holds is known from its place alone. So the
//! order is part of each record's contract, and is stated there: see
//! `shape` and `wire_tuple` on each record.
//!
//! Records that can be read back from their tuple have a `deserialize`
//! beside their `serialize`, and decoding what was encoded gives the record
//! back. Records that carry the digests of sample collectors have
//! `serialize` alone.
//!
//! IEEE 754 numbers are held by their bit patterns throughout. The codec
//! moves them and never computes with them.

pub mod block;
pub mod clock;
pub mod details;
pub mod digest;
pub mod hash;
pub mod location;
mod read;
pub mod stats;
pub mod wire;

pub use block::{Block, BlockDetails, BlockNumber};
pub use clock::{ClockError, Timestamp};
pub use details::NodeDetails;
pub use digest::{NodeHardware, NodeIO};
pub use hash::BlockHash;
pub use location::NodeLocation;
pub use stats::NodeStats;
pub use wire::{DecodeError, Slot, SlotKind};
