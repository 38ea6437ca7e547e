//! Verified core of a binary-to-audio sonification tool.
//!
//! Every raw input byte becomes one signed PCM sample. The library holds the
//! parts with real invariants: the byte-to-sample encoding, the shared byte
//! budget that caps how much a run may consume, the derivation of safe output
//! paths, and the per-entry decisions of the directory walk. Reading files,
//! writing audio containers and running entries in parallel are left to an
//! unverified shell around this crate.

pub mod budget;
pub mod encoder;
pub mod errors;
pub mod paths;
pub mod walker;
