//! The chain tip a channel validates shares against: the previous block
//! hash, its compact difficulty bits, the earliest usable header time and
//! the network target.

use vstd::prelude::*;

verus! {

use crate::target::Target;

/// The chain context established by the last prev-hash event.
pub struct ChainTip {
    /// The 32-byte hash of the previous block, little endian.
    pub prev_hash: Vec<u8>,
    /// The compact difficulty bits of the next block.
    pub nbits: u32,
    /// The earliest header timestamp a share may carry.
    pub min_ntime: u32,
    /// The network target a block solution must meet.
    pub network_target: Target,
}

} // verus!
