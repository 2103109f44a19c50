//! The transaction that a group is asked about.

use vstd::prelude::*;

verus! {

/// Reference to an output of an earlier transaction.
#[derive(Clone, Copy, Debug, PartialEq, Eq)]
pub struct OutPoint {
    /// Id of the transaction that holds the output.
    pub txid: [u8; 32],
    /// Index of the output in that transaction.
    pub out_idx: u32,
}

/// Output of a transaction: an amount locked by a script.
#[derive(Clone, Debug, PartialEq, Eq)]
pub struct TxOutput {
    /// Amount in satoshis.
    pub value: i64,
    /// Bytecode of the locking script.
    pub script: Vec<u8>,
}

/// Input of a transaction: an earlier output and the script that unlocks it.
#[derive(Clone, Debug, PartialEq, Eq)]
pub struct TxInput {
    /// The output being spent.
    pub prev_out: OutPoint,
    /// Bytecode of the unlocking script.
    pub script: Vec<u8>,
    /// Sequence number of the input.
    pub sequence: u32,
    /// The spent output itself, where it is known.
    pub coin: Option<TxOutput>,
}

/// A transaction: an ordered list of inputs and an ordered list of outputs.
#[derive(Clone, Debug, PartialEq, Eq)]
pub struct Tx {
    /// Version of the transaction.
    pub version: i32,
    /// Inputs, in the order of the transaction.
    pub inputs: Vec<TxInput>,
    /// Outputs, in the order of the transaction.
    pub outputs: Vec<TxOutput>,
    /// Earliest time or height at which the transaction may be mined.
    pub locktime: u32,
}

} // verus!
