//! Import helper for AmbientCG texture sets: resolution negotiation, channel
//! path naming and roughness/metalness packing.

pub mod error;
pub mod resolution;
pub mod material;
pub mod naming;
pub mod image_io;
pub mod packing;
