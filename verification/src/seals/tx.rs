//! The parts of a transaction that the closing of a seal depends on.
use vstd::prelude::*;

use crate::bytes::same_hash;

verus! {

/// Transaction identifier, in the byte order of the hash that it is.
#[derive(Copy, Clone, Eq, Debug)]
pub struct Txid(pub [u8; 32]);

impl vstd::std_specs::cmp::PartialEqSpecImpl for Txid {
    open spec fn obeys_eq_spec() -> bool {
        true
    }

    open spec fn eq_spec(&self, other: &Txid) -> bool {
        *self == *other
    }
}

impl PartialEq for Txid {
    fn eq(&self, other: &Txid) -> (r: bool)
        ensures
            r == (self.0 == other.0),
    {
        same_hash(&self.0, &other.0)
    }
}

/// Reference to an output of a transaction.
#[derive(Copy, Clone, Eq, Debug)]
pub struct Outpoint {
    pub txid: Txid,
    pub vout: u32,
}

impl vstd::std_specs::cmp::PartialEqSpecImpl for Outpoint {
    open spec fn obeys_eq_spec() -> bool {
        true
    }

    open spec fn eq_spec(&self, other: &Outpoint) -> bool {
        *self == *other
    }
}

impl PartialEq for Outpoint {
    fn eq(&self, other: &Outpoint) -> (r: bool)
        ensures
            r == (self.txid == other.txid && self.vout == other.vout),
    {
        self.txid == other.txid && self.vout == other.vout
    }
}

/// Transaction input: the output that it spends.
#[derive(Copy, Clone, PartialEq, Eq, Debug)]
pub struct TxIn {
    pub prev_output: Outpoint,
}

/// Transaction output: an amount and the script that locks it.
#[derive(Clone, PartialEq, Eq, Debug)]
pub struct TxOut {
    pub value: u64,
    pub script_pubkey: Vec<u8>,
}

/// Transaction with its inputs and outputs in order.
#[derive(Clone, PartialEq, Eq, Debug)]
pub struct Tx {
    pub inputs: Vec<TxIn>,
    pub outputs: Vec<TxOut>,
}

/// The amounts and locking scripts of outputs.
pub open spec fn output_views(outputs: Seq<TxOut>) -> Seq<(u64, Seq<u8>)> {
    outputs.map_values(|output: TxOut| (output.value, output.script_pubkey@))
}

impl View for Tx {
    type V = (Seq<TxIn>, Seq<(u64, Seq<u8>)>);

    open spec fn view(&self) -> Self::V {
        (self.inputs@, output_views(self.outputs@))
    }
}

impl Tx {
    /// The consensus format counts inputs, outputs and script bytes by 32 bits.
    pub open spec fn well_formed(&self) -> bool {
        &&& self.inputs@.len() <= u32::MAX
        &&& self.outputs@.len() <= u32::MAX
        &&& forall|i: int|
            0 <= i < self.outputs@.len() ==> (#[trigger] self.outputs@[i]).script_pubkey@.len()
                <= u32::MAX
    }

    /// Tells whether inputs, outputs and script bytes are few enough.
    pub fn is_well_formed(&self) -> (r: bool)
        ensures
            r == self.well_formed(),
            r <==> self.inputs@.len() <= u32::MAX && self.outputs@.len() <= u32::MAX && forall|i: int|
                0 <= i < self.outputs@.len() ==> (#[trigger] self.outputs@[i]).script_pubkey@.len()
                    <= u32::MAX,
    {
        if self.inputs.len() as u64 > u32::MAX as u64 || self.outputs.len() as u64 > u32::MAX as u64
        {
            return false;
        }
        let mut i: usize = 0;
        while i < self.outputs.len()
            invariant
                0 <= i <= self.outputs@.len(),
                forall|j: int|
                    0 <= j < i ==> (#[trigger] self.outputs@[j]).script_pubkey@.len() <= u32::MAX,
            decreases self.outputs@.len() - i,
        {
            if self.outputs[i].script_pubkey.len() as u64 > u32::MAX as u64 {
                return false;
            }
            i = i + 1;
        }
        true
    }

    /// Whether some input spends the output.
    pub open spec fn spends(&self, outpoint: Outpoint) -> bool {
        exists|i: int|
            0 <= i < self.inputs@.len() && (#[trigger] self.inputs@[i]).prev_output == outpoint
    }

    /// Tells whether some input spends the output.
    pub fn spends_output(&self, outpoint: Outpoint) -> (r: bool)
        ensures
            r == self.spends(outpoint),
            r <==> exists|i: int|
                0 <= i < self.inputs@.len() && (#[trigger] self.inputs@[i]).prev_output == outpoint,
    {
        let mut i: usize = 0;
        while i < self.inputs.len()
            invariant
                0 <= i <= self.inputs@.len(),
                forall|j: int| 0 <= j < i ==> (#[trigger] self.inputs@[j]).prev_output != outpoint,
            decreases self.inputs@.len() - i,
        {
            if self.inputs[i].prev_output == outpoint {
                return true;
            }
            i = i + 1;
        }
        false
    }
}

/// The contents of a transaction are its inputs and, for each output, the amount
/// and the script.
pub proof fn law_tx_view(tx: Tx, i: int)
    ensures
        tx@.0 == tx.inputs@,
        tx@.1.len() == tx.outputs@.len(),
        0 <= i < tx.outputs@.len() ==> tx@.1[i] == (
            tx.outputs@[i].value,
            tx.outputs@[i].script_pubkey@,
        ),
{
}

/// A transaction spends the output of each of its inputs and no other.
pub proof fn law_spends(tx: Tx, outpoint: Outpoint, i: int)
    ensures
        0 <= i < tx.inputs@.len() ==> tx.spends(tx.inputs@[i].prev_output),
        tx.spends(outpoint) ==> exists|j: int|
            0 <= j < tx.inputs@.len() && (#[trigger] tx.inputs@[j]).prev_output == outpoint,
{
}

/// Transaction identifiers and outpoints are equal where all of their parts are.
pub proof fn law_outpoint_equal(a: Outpoint, b: Outpoint)
    ensures
        vstd::std_specs::cmp::PartialEqSpec::eq_spec(&a, &b) <==> a.txid.0@ == b.txid.0@ && a.vout
            == b.vout,
        vstd::std_specs::cmp::PartialEqSpec::eq_spec(&a.txid, &b.txid) <==> a.txid.0@
            == b.txid.0@,
{
    if a.txid.0@ == b.txid.0@ {
        assert forall|i: int| 0 <= i < 32 implies a.txid.0[i] == b.txid.0[i] by {
            assert(a.txid.0@[i] == b.txid.0@[i]);
        }
        assert(a.txid.0 =~= b.txid.0);
    }
}

} // verus!
