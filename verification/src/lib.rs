//! Client library for the Mumble positional-audio link: a game publishes the
//! player's and camera's position into a well-known shared memory segment that
//! the voice application reads to spatialize audio.
//!
//! The segment is maintained lock-free: the only cross-process signals are the
//! record's `ui_version` field (zero means the segment is free) and the
//! `ui_tick` heartbeat counter. This crate holds the protocol core: the
//! fixed-layout linked record and its wide-string codec, the fail-fast
//! exclusive link, and the shared link's cooperative ownership state machine.
//! The platform-specific memory mapping itself is left to the embedding
//! application, which hands the segment's contents to this core as a
//! [`region::Region`] value.

pub mod codec;
pub mod error;
pub mod link;
pub mod record;
pub mod region;
pub mod shared;

pub use error::ErrorCode;
pub use link::MumbleLink;
pub use record::{LinkedMem, Position, Vec3};
pub use region::Region;
pub use shared::{Inner, SharedLink, Status};
