//! Telemetry decoding and world state for a top-down robot viewer.
//!
//! Bytes read from the robot's stream are classified into obstacle sightings,
//! scan readings or diagnostic text, and folded into an append-only world.
pub mod json;
pub mod decoder;
pub mod message;
pub mod projection;
pub mod world;

pub use decoder::{classify, decode, obstacle_from, scan_from};
pub use json::{find_member, Member};
pub use message::{CybotScanData, Message, ObstacleData};
pub use projection::mirrored_angle;
pub use world::World;
