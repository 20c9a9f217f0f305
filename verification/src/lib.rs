//! Provisioning and launch core for a modded game client.
//!
//! The crate resolves version metadata, selects platform-conditional
//! libraries, plans idempotent downloads, extracts native libraries from
//! archives, provisions a managed runtime, and assembles the launch
//! command line. All decision logic is verified; the surrounding process
//! performs the actual network and filesystem work and feeds results back
//! in as plain values.

pub mod errors;
pub mod fetch;
pub mod launch;
pub mod manifest;
pub mod modpack;
pub mod natives;
pub mod paths;
pub mod platform;
pub mod progress;
pub mod rules;
pub mod runtime;
pub mod session;
pub mod system;
pub mod text;
