//! A minimal real-time rendering host, re-architected around a verified core:
//! surface configuration lifecycle, pipeline registry, resource upload
//! validation, and the per-frame command-submission state machine.

pub mod bridge;
pub mod color;
pub mod engine;
pub mod layout;
pub mod mesh;
pub mod pipeline;
pub mod surface;
pub mod texture;
