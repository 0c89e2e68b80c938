//! Server-side core of the Stratum V2 mining protocol: per-connection mining
//! channels, job tracking derived from block templates, share validation
//! against a difficulty target, and the encrypted framed transport codec.

pub mod chain_tip;
pub mod codec;
pub mod codec_state;
pub mod coinbase;
pub mod extended_channel;
pub mod extranonce;
pub mod group_channel;
pub mod jobs;
pub mod messages;
pub mod share_accounting;
pub mod standard_channel;
pub mod target;
pub mod translate;
pub mod txout;

use vstd::prelude::*;

verus! {

/// Full length in bytes of an Sv2 extranonce (prefix plus rollable part).
pub const FULL_EXTRANONCE_LEN: usize = 32;

/// How far above a job's earliest time a share's header time may lie, in
/// seconds, mirroring consensus' allowance for future block timestamps.
pub const MAX_FUTURE_BLOCK_TIME: u32 = 7200;

/// The header version bits a miner may never change: everything outside
/// the general-purpose rolling range.
pub const NON_ROLLABLE_VERSION_MASK: u32 = 0xe0001fff;

/// Longest pool tag embedded in a coinbase scriptSig: the largest single
/// push opcode.
pub const POOL_TAG_MAX_LEN: usize = 75;

} // verus!
