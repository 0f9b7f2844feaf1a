//! Verified core of a texture-material pipeline: channel classification of
//! archive entries, pixel compositing, per-item write planning with atomic
//! commits, compression preparation and engine metadata rendering.

pub mod channels;
pub mod codec;
pub mod composite;
pub mod compress;
pub mod download;
pub mod error;
pub mod manifest;
pub mod pack;
pub mod plan;
pub mod unity;
