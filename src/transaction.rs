//! The parts of a decoded transaction that resolving an identifier reads.

use vstd::prelude::*;

verus! {

/// A transaction output: an amount in satoshis and the script that must be
/// satisfied to spend it.
#[derive(Debug, Clone, PartialEq, Eq)]
pub struct TxOutput {
    pub value: u64,
    pub script_pubkey: Vec<u8>,
}

impl View for TxOutput {
    type V = (u64, Seq<u8>);

    open spec fn view(&self) -> (u64, Seq<u8>) {
        (self.value, self.script_pubkey@)
    }
}

impl TxOutput {
    /// An output with the same amount and script, independent of this one.
    pub fn copy(&self) -> (r: TxOutput)
        ensures
            r@ == self@,
    {
        let mut script: Vec<u8> = Vec::with_capacity(self.script_pubkey.len());
        let mut i: usize = 0;
        while i < self.script_pubkey.len()
            invariant
                i <= self.script_pubkey@.len(),
                script@ == self.script_pubkey@.subrange(0, i as int),
            decreases self.script_pubkey@.len() - i,
        {
            script.push(self.script_pubkey[i]);
            i = i + 1;
        }
        assert(script@ == self.script_pubkey@);
        TxOutput { value: self.value, script_pubkey: script }
    }
}

/// A transaction, as far as its outputs go, in their order.
#[derive(Debug, Clone, PartialEq, Eq)]
pub struct Transaction {
    pub outputs: Vec<TxOutput>,
}

impl View for Transaction {
    type V = Seq<(u64, Seq<u8>)>;

    open spec fn view(&self) -> Seq<(u64, Seq<u8>)> {
        self.outputs@.map_values(|o: TxOutput| o@)
    }
}

impl Transaction {
    /// The number of outputs.
    pub fn output_count(&self) -> (r: usize)
        ensures
            r == self@.len(),
    {
        self.outputs.len()
    }
}

} // verus!
