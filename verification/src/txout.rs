//! A coinbase reward output as the pool operator supplies it: a value in
//! satoshis and the raw script bytes.

use vstd::prelude::*;

verus! {

/// One transaction output to append to a job's coinbase.
#[derive(Clone, Debug, PartialEq)]
pub struct TxOutput {
    pub value: u64,
    pub script_pubkey: Vec<u8>,
}

} // verus!
