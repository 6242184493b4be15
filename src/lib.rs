//! Stateless connection identifiers for the UDP tracker protocol.
//!
//! A connection id is a keyed hash of the client's endpoint and of a
//! two-minute time slot. The server keeps no per-client state: it checks an
//! id by recomputing it for the current and for the previous slot.

pub mod byte_array_32;
pub mod config;
pub mod connection_id;
pub mod digest;
pub mod endpoint;
pub mod int_bytes;
pub mod time_bound_pepper;

pub use byte_array_32::ByteArray32;
pub use connection_id::{ConnectionId, get_connection_id, verify_connection_id};
pub use endpoint::{IpAddress, RemoteAddress};
pub use time_bound_pepper::{TimeBoundPepper, Timestamp};
