//! Start-up sequencing and consensus selection of an Aura parachain node.

use vstd::prelude::*;

pub mod config;
pub mod consensus;
pub mod error;
pub mod header;
pub mod import_queue;
pub mod inherents;
pub mod laws;
pub mod lazy;
pub mod partial;
pub mod start;
pub mod types;

verus! {

/// The native executor of the parachain runtime.
pub struct MantaRuntimeExecutor;

} // verus!
