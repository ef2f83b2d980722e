//! Witnesses of closed seals.
use vstd::prelude::*;

use crate::seals::commitment::{
    has_p2tr, law_one_message, law_opret_verdict, CloseMethod, ImpossibleMessage, Proof,
};
use crate::seals::tx::{Outpoint, Tx, Txid};

verus! {

/// Single-use seal defined over a transaction output.
pub trait TxoSeal {
    /// The way in which the seal must be closed.
    spec fn closing_method(&self) -> CloseMethod;

    /// The output that the seal is defined over, given the transaction to take
    /// where the seal names none.
    spec fn closing_outpoint(&self, default_txid: Txid) -> Outpoint;

    /// Returns the way in which the seal must be closed.
    fn method(&self) -> (r: CloseMethod)
        ensures
            r == self.closing_method(),
    ;

    /// Returns the output that the seal is defined over; where the seal names
    /// no transaction, it is that of the given transaction.
    fn outpoint_or(&self, default_txid: Txid) -> (r: Outpoint)
        ensures
            r == self.closing_outpoint(default_txid),
    ;
}

/// Seal over an output, of a given transaction or of the one that closes it.
#[derive(Copy, Clone, PartialEq, Eq, Debug)]
pub struct ExplicitSeal {
    pub method: CloseMethod,
    pub txid: Option<Txid>,
    pub vout: u32,
}

impl TxoSeal for ExplicitSeal {
    open spec fn closing_method(&self) -> CloseMethod {
        self.method
    }

    open spec fn closing_outpoint(&self, default_txid: Txid) -> Outpoint {
        Outpoint {
            txid: match self.txid {
                Some(txid) => txid,
                None => default_txid,
            },
            vout: self.vout,
        }
    }

    fn method(&self) -> (r: CloseMethod)
        ensures
            r == self.method,
    {
        self.method
    }

    fn outpoint_or(&self, default_txid: Txid) -> (r: Outpoint)
        ensures
            self.txid is Some ==> r.txid == self.txid->0,
            self.txid is None ==> r.txid == default_txid,
            r.vout == self.vout,
    {
        let txid = match self.txid {
            Some(txid) => txid,
            None => default_txid,
        };
        Outpoint { txid, vout: self.vout }
    }
}

/// Reasons why a witness does not close a seal.
#[derive(Copy, Clone, PartialEq, Eq, Debug)]
pub enum VerifyError {
    /// The seals are to be closed in different ways.
    InconsistentCloseMethod,
    /// The witness transaction does not spend the output of the seal.
    WitnessNotClosingSeal(Txid, Outpoint),
    /// No commitment to the message can be made the way the proof says.
    ImpossibleMessage,
}

/// Witness of a seal being closed.
#[derive(Clone, PartialEq, Eq, Debug)]
pub struct Witness {
    /// Witness transaction: transaction which contains commitment to the
    /// message over which the seal is closed.
    pub tx: Tx,
    /// Txid of the witness transaction.
    pub txid: Txid,
    /// Multi-protocol commitment proof from MPC anchor.
    pub proof: Proof,
}

impl Witness {
    /// Whether the witness transaction spends the output of the seal.
    pub open spec fn closes<Seal: TxoSeal>(&self, seal: Seal) -> bool {
        self.tx.spends(seal.closing_outpoint(self.txid))
    }

    /// The error of a seal whose output the witness transaction does not spend.
    pub open spec fn not_closing<Seal: TxoSeal>(&self, seal: Seal) -> VerifyError {
        VerifyError::WitnessNotClosingSeal(self.txid, seal.closing_outpoint(self.txid))
    }

    /// The outcome of verifying the commitment alone.
    pub open spec fn commitment_verdict(&self, msg: Seq<u8>) -> Result<bool, VerifyError> {
        commitment_outcome(self.proof.verdict(msg, self.tx@.1))
    }

    /// Whether the proof is a tapret one and no output of the witness transaction
    /// is a taproot one.
    pub open spec fn cannot_commit(&self) -> bool {
        self.proof is TapretFirst && !has_p2tr(self.tx@.1)
    }

    /// What is wrong with the seal at the index, if anything: a closing method
    /// that differs from the first one, or an output that is not spent.
    pub open spec fn seal_error<Seal: TxoSeal>(&self, seals: Seq<&Seal>, i: int) -> Option<
        VerifyError,
    > {
        if seals[i].closing_method() != seals[0].closing_method() {
            Some(VerifyError::InconsistentCloseMethod)
        } else if !self.closes(*seals[i]) {
            Some(self.not_closing(*seals[i]))
        } else {
            None
        }
    }

    /// What is wrong with the first faulty seal at the index or behind it.
    pub open spec fn first_seal_error<Seal: TxoSeal>(&self, seals: Seq<&Seal>, i: int) -> Option<
        VerifyError,
    >
        decreases seals.len() - i,
    {
        if i >= seals.len() {
            None
        } else if self.seal_error(seals, i) is Some {
            self.seal_error(seals, i)
        } else {
            self.first_seal_error(seals, i + 1)
        }
    }

    /// The outcome of verifying one seal.
    pub open spec fn seal_verdict<Seal: TxoSeal>(&self, seal: Seal, msg: Seq<u8>) -> Result<
        bool,
        VerifyError,
    > {
        if self.closes(seal) {
            self.commitment_verdict(msg)
        } else {
            Err(self.not_closing(seal))
        }
    }

    /// The outcome of verifying many seals.
    pub open spec fn seals_verdict<Seal: TxoSeal>(&self, seals: Seq<&Seal>, msg: Seq<u8>) -> Result<
        bool,
        VerifyError,
    > {
        match self.first_seal_error(seals, 0) {
            Some(error) => Err(error),
            None => self.commitment_verdict(msg),
        }
    }

    /// Verifies that the witness closes the seal over the message: its
    /// transaction spends the output of the seal and commits to the message.
    pub fn verify_seal<Seal: TxoSeal>(&self, seal: &Seal, msg: &[u8; 32]) -> (r: Result<
        bool,
        VerifyError,
    >)
        requires
            self.tx.well_formed(),
        ensures
            r == self.seal_verdict(*seal, msg@),
            self.cannot_commit() ==> r is Err,
            r is Ok ==> exists|i: int|
                0 <= i < self.tx.inputs@.len() && (#[trigger] self.tx.inputs@[i]).prev_output
                    == seal.closing_outpoint(self.txid),
            !self.tx.spends(seal.closing_outpoint(self.txid)) ==> r == Err::<bool, VerifyError>(
                VerifyError::WitnessNotClosingSeal(self.txid, seal.closing_outpoint(self.txid)),
            ),
            self.tx.spends(seal.closing_outpoint(self.txid)) ==> match self.proof.verdict(
                msg@,
                self.tx@.1,
            ) {
                Ok(commits) => r == Ok::<bool, VerifyError>(commits),
                Err(_) => r == Err::<bool, VerifyError>(VerifyError::ImpossibleMessage),
            },
            self.proof is OpretFirst && r is Ok ==> (r->Ok_0 <==> exists|i: int|
                0 <= i < self.tx.outputs@.len() && (#[trigger] self.tx.outputs@[i]).script_pubkey@
                    == seq![0x6au8, 0x20u8] + msg@ && forall|j: int|
                    0 <= j < i && (#[trigger] self.tx.outputs@[j]).script_pubkey@.len() > 0
                        ==> self.tx.outputs@[j].script_pubkey@[0] != 0x6a),
    {
        proof {
            law_closed_seal(*self, *seal, msg@);
        }
        // 1. The seal must match tx inputs
        let outpoint = seal.outpoint_or(self.txid);
        if !self.tx.spends_output(outpoint) {
            return Err(VerifyError::WitnessNotClosingSeal(self.txid, outpoint));
        }

        // 2. The transaction must commit to the message
        commitment_result(self.proof.verify(msg, &self.tx))
    }

    /// Verifies that the witness closes all the seals over the message: they
    /// share one closing method, its transaction spends the output of each and
    /// commits to the message.
    #[verifier::loop_isolation(false)]
    pub fn verify_many_seals<Seal: TxoSeal>(&self, seals: &[&Seal], msg: &[u8; 32]) -> (r: Result<
        bool,
        VerifyError,
    >)
        requires
            self.tx.well_formed(),
        ensures
            r == self.seals_verdict(seals@, msg@),
            self.cannot_commit() ==> r is Err,
            r is Ok ==> forall|k: int|
                0 <= k < seals@.len() ==> exists|i: int|
                    0 <= i < self.tx.inputs@.len() && (#[trigger] self.tx.inputs@[i]).prev_output
                        == (#[trigger] seals@[k]).closing_outpoint(self.txid),
            r is Ok ==> forall|k: int|
                0 <= k < seals@.len() ==> (#[trigger] seals@[k]).closing_method()
                    == seals@[0].closing_method(),
            forall|k: int|
                0 <= k < seals@.len() && (forall|j: int|
                    0 <= j < k ==> (#[trigger] seals@[j]).closing_method()
                        == seals@[0].closing_method() && self.tx.spends(
                        seals@[j].closing_outpoint(self.txid),
                    )) ==> {
                    &&& (#[trigger] seals@[k]).closing_method() != seals@[0].closing_method()
                        ==> r == Err::<bool, VerifyError>(VerifyError::InconsistentCloseMethod)
                    &&& seals@[k].closing_method() == seals@[0].closing_method()
                        && !self.tx.spends(seals@[k].closing_outpoint(self.txid)) ==> r == Err::<
                        bool,
                        VerifyError,
                    >(
                        VerifyError::WitnessNotClosingSeal(
                            self.txid,
                            seals@[k].closing_outpoint(self.txid),
                        ),
                    )
                },
            (forall|k: int|
                0 <= k < seals@.len() ==> (#[trigger] seals@[k]).closing_method()
                    == seals@[0].closing_method() && self.tx.spends(
                    seals@[k].closing_outpoint(self.txid),
                )) ==> match self.proof.verdict(msg@, self.tx@.1) {
                Ok(commits) => r == Ok::<bool, VerifyError>(commits),
                Err(_) => r == Err::<bool, VerifyError>(VerifyError::ImpossibleMessage),
            },
            self.proof is OpretFirst && r is Ok ==> (r->Ok_0 <==> exists|i: int|
                0 <= i < self.tx.outputs@.len() && (#[trigger] self.tx.outputs@[i]).script_pubkey@
                    == seq![0x6au8, 0x20u8] + msg@ && forall|j: int|
                    0 <= j < i && (#[trigger] self.tx.outputs@[j]).script_pubkey@.len() > 0
                        ==> self.tx.outputs@[j].script_pubkey@[0] != 0x6a),
    {
        proof {
            law_closed_seals(*self, seals@, msg@);
            assert forall|k: int|
                #![trigger seals@[k]]
                0 <= k < seals@.len() && (forall|j: int|
                    0 <= j < k ==> (#[trigger] seals@[j]).closing_method()
                        == seals@[0].closing_method() && self.tx.spends(
                        seals@[j].closing_outpoint(self.txid),
                    )) && self.seal_error(seals@, k) is Some implies self.seals_verdict(
                seals@,
                msg@,
            ) == Err::<bool, VerifyError>(self.seal_error(seals@, k)->0) by {
                law_faulty_seal(*self, seals@, k, msg@);
            }
        }
        let mut method: Option<CloseMethod> = None;
        let mut i: usize = 0;
        while i < seals.len()
            invariant
                0 <= i <= seals@.len(),
                i == 0 <==> method is None,
                i > 0 ==> method == Some(seals@[0].closing_method()),
                self.first_seal_error(seals@, 0) == self.first_seal_error(seals@, i as int),
            decreases seals@.len() - i,
        {
            let seal = seals[i];
            // 1. All seals must have the same closing method
            if let Some(first) = method {
                if first != seal.method() {
                    return Err(VerifyError::InconsistentCloseMethod);
                }
            } else {
                method = Some(seal.method());
            }
            // 2. Each seal must match tx inputs
            let outpoint = seal.outpoint_or(self.txid);
            if !self.tx.spends_output(outpoint) {
                return Err(VerifyError::WitnessNotClosingSeal(self.txid, outpoint));
            }
            i = i + 1;
        }

        // 3. The transaction must commit to the message
        commitment_result(self.proof.verify(msg, &self.tx))
    }
}

/// The outcome of a verified commitment as that of a seal.
pub open spec fn commitment_outcome(verdict: Result<bool, ImpossibleMessage>) -> Result<
    bool,
    VerifyError,
> {
    match verdict {
        Ok(commits) => Ok(commits),
        Err(_) => Err(VerifyError::ImpossibleMessage),
    }
}

/// Turns the outcome of a verified commitment into that of a seal.
pub fn commitment_result(verdict: Result<bool, ImpossibleMessage>) -> (r: Result<
    bool,
    VerifyError,
>)
    ensures
        r == commitment_outcome(verdict),
        match verdict {
            Ok(commits) => r == Ok::<bool, VerifyError>(commits),
            Err(_) => r == Err::<bool, VerifyError>(VerifyError::ImpossibleMessage),
        },
{
    match verdict {
        Ok(commits) => Ok(commits),
        Err(_) => Err(VerifyError::ImpossibleMessage),
    }
}

/// Nothing is wrong with seals from the index on exactly where each of them has
/// the closing method of the first and an output that the witness spends.
proof fn lemma_no_seal_error<Seal: TxoSeal>(witness: Witness, seals: Seq<&Seal>, i: int)
    requires
        0 <= i <= seals.len(),
    ensures
        witness.first_seal_error(seals, i) is None <==> forall|j: int|
            i <= j < seals.len() ==> witness.seal_error(seals, j) is None,
    decreases seals.len() - i,
{
    if i < seals.len() {
        lemma_no_seal_error(witness, seals, i + 1);
        assert forall|j: int| i <= j < seals.len() && witness.first_seal_error(seals, i)
            is None implies witness.seal_error(seals, j) is None by {
            if j > i {
                assert(i + 1 <= j);
            }
        }
    }
}

/// Whether each of the seals has the same closing method and an output that the
/// witness transaction spends.
pub open spec fn all_closed<Seal: TxoSeal>(witness: Witness, seals: Seq<&Seal>) -> bool {
    &&& forall|i: int, j: int|
        0 <= i < seals.len() && 0 <= j < seals.len() ==> (
        #[trigger] seals[i]).closing_method() == (#[trigger] seals[j]).closing_method()
    &&& forall|i: int| 0 <= i < seals.len() ==> witness.closes(*#[trigger] seals[i])
}

/// Many seals are closed as far as their commitment goes if and only if they
/// share one closing method and the witness transaction spends the output of
/// each of them; otherwise there is an error.
pub proof fn law_all_seals_closed<Seal: TxoSeal>(witness: Witness, seals: Seq<&Seal>, msg: Seq<u8>)
    ensures
        all_closed(witness, seals) ==> witness.seals_verdict(seals, msg)
            == witness.commitment_verdict(msg),
        !all_closed(witness, seals) ==> witness.seals_verdict(seals, msg) is Err,
{
    lemma_no_seal_error(witness, seals, 0);
    if all_closed(witness, seals) {
        assert forall|j: int| 0 <= j < seals.len() implies witness.seal_error(seals, j) is None by {
            assert(seals[j].closing_method() == seals[0].closing_method());
            assert(witness.closes(*seals[j]));
        }
    } else if witness.first_seal_error(seals, 0) is None {
        assert forall|i: int| 0 <= i < seals.len() implies {
            &&& (#[trigger] seals[i]).closing_method() == seals[0].closing_method()
            &&& witness.closes(*seals[i])
        } by {
            assert(witness.seal_error(seals, i) is None);
        }
    }
}

/// Verifying a list of one seal is verifying that seal.
pub proof fn law_one_seal<Seal: TxoSeal>(witness: Witness, seal: Seal, msg: Seq<u8>)
    ensures
        witness.seals_verdict(seq![&seal], msg) == witness.seal_verdict(seal, msg),
{
    let seals = seq![&seal];
    assert(witness.first_seal_error(seals, 1) is None);
    assert(witness.first_seal_error(seals, 0) == witness.seal_error(seals, 0));
}

/// Where many seals verify, each of them verifies alone with the same result.
pub proof fn law_each_seal<Seal: TxoSeal>(
    witness: Witness,
    seals: Seq<&Seal>,
    i: int,
    msg: Seq<u8>,
)
    requires
        0 <= i < seals.len(),
        witness.seals_verdict(seals, msg) is Ok,
    ensures
        witness.seal_verdict(*seals[i], msg) == witness.seals_verdict(seals, msg),
{
    law_all_seals_closed(witness, seals, msg);
    assert(witness.closes(*seals[i]));
}

/// Where many seals verify, any of them verify with the same result, however
/// often each of them occurs.
pub proof fn law_chosen_seals<Seal: TxoSeal>(
    witness: Witness,
    seals: Seq<&Seal>,
    chosen: Seq<&Seal>,
    msg: Seq<u8>,
)
    requires
        witness.seals_verdict(seals, msg) is Ok,
        forall|i: int| 0 <= i < chosen.len() ==> seals.contains(#[trigger] chosen[i]),
    ensures
        witness.seals_verdict(chosen, msg) == witness.seals_verdict(seals, msg),
{
    law_all_seals_closed(witness, seals, msg);
    law_all_seals_closed(witness, chosen, msg);
    assert(all_closed(witness, chosen));
}

/// Whether many seals verify, and with which result, does not depend on their
/// order.
pub proof fn law_seal_order<Seal: TxoSeal>(
    witness: Witness,
    seals: Seq<&Seal>,
    reordered: Seq<&Seal>,
    msg: Seq<u8>,
)
    requires
        seals.to_multiset() == reordered.to_multiset(),
    ensures
        witness.seals_verdict(seals, msg) is Ok <==> witness.seals_verdict(reordered, msg) is Ok,
        witness.seals_verdict(seals, msg) is Ok ==> witness.seals_verdict(seals, msg)
            == witness.seals_verdict(reordered, msg),
{
    law_all_seals_closed(witness, seals, msg);
    law_all_seals_closed(witness, reordered, msg);
    if all_closed(witness, seals) {
        lemma_closed_reordered(witness, seals, reordered);
    }
    if all_closed(witness, reordered) {
        lemma_closed_reordered(witness, reordered, seals);
    }
}

proof fn lemma_closed_reordered<Seal: TxoSeal>(
    witness: Witness,
    seals: Seq<&Seal>,
    reordered: Seq<&Seal>,
)
    requires
        seals.to_multiset() == reordered.to_multiset(),
        all_closed(witness, seals),
    ensures
        all_closed(witness, reordered),
{
    broadcast use vstd::seq_lib::group_to_multiset_ensures;

    assert forall|j: int| 0 <= j < reordered.len() implies exists|k: int|
        0 <= k < seals.len() && #[trigger] seals[k] == #[trigger] reordered[j] by {
        assert(reordered.to_multiset().count(reordered[j]) > 0);
        assert(seals.contains(reordered[j]));
    }
}

/// An opret proof always has an outcome: verifying a seal fails only where the
/// witness transaction does not spend the output of the seal.
pub proof fn law_opret_outcome<Seal: TxoSeal>(witness: Witness, seal: Seal, msg: Seq<u8>)
    requires
        witness.proof is OpretFirst,
    ensures
        witness.seal_verdict(seal, msg) is Ok <==> witness.closes(seal),
{
}

/// The seal is over the output that it names, of the transaction that it names,
/// or else of the given one.
pub proof fn law_explicit_seal(seal: ExplicitSeal, default_txid: Txid)
    ensures
        seal.closing_method() == seal.method,
        seal.txid is Some ==> seal.closing_outpoint(default_txid).txid == seal.txid->0,
        seal.txid is None ==> seal.closing_outpoint(default_txid).txid == default_txid,
        seal.closing_outpoint(default_txid).vout == seal.vout,
{
}

/// A seal verifies only where some input of the witness transaction spends its
/// output, and fails with that output otherwise. Where it is spent, the result
/// is that of the commitment: of an opret proof, whether the first output that
/// starts with `OP_RETURN` holds a push of the message and nothing else.
pub proof fn law_closed_seal<Seal: TxoSeal>(witness: Witness, seal: Seal, msg: Seq<u8>)
    ensures
        witness.seal_verdict(seal, msg) is Ok ==> exists|i: int|
            0 <= i < witness.tx.inputs@.len() && (#[trigger] witness.tx.inputs@[i]).prev_output
                == seal.closing_outpoint(witness.txid),
        (forall|i: int|
            0 <= i < witness.tx.inputs@.len() ==> (#[trigger] witness.tx.inputs@[i]).prev_output
                != seal.closing_outpoint(witness.txid)) ==> witness.seal_verdict(seal, msg)
            == Err::<bool, VerifyError>(
            VerifyError::WitnessNotClosingSeal(witness.txid, seal.closing_outpoint(witness.txid)),
        ),
        (exists|i: int|
            0 <= i < witness.tx.inputs@.len() && (#[trigger] witness.tx.inputs@[i]).prev_output
                == seal.closing_outpoint(witness.txid)) ==> witness.seal_verdict(seal, msg)
            == match witness.proof.verdict(msg, witness.tx@.1) {
            Ok(commits) => Ok::<bool, VerifyError>(commits),
            Err(_) => Err::<bool, VerifyError>(VerifyError::ImpossibleMessage),
        },
        witness.proof is OpretFirst && witness.seal_verdict(seal, msg) is Ok ==> (
        witness.seal_verdict(seal, msg)->Ok_0 <==> exists|i: int|
            0 <= i < witness.tx.outputs@.len() && (
            #[trigger] witness.tx.outputs@[i]).script_pubkey@ == seq![0x6au8, 0x20u8] + msg
                && forall|j: int|
                0 <= j < i && (#[trigger] witness.tx.outputs@[j]).script_pubkey@.len() > 0
                    ==> witness.tx.outputs@[j].script_pubkey@[0] != 0x6a),
{
    law_opret_verdict(witness.tx, msg);
}

/// Many seals verify only where each has the closing method of the first and
/// some input of the witness transaction spends its output. Where this holds of
/// all of them, the result is that of the commitment: of an opret proof, whether
/// the first output that starts with `OP_RETURN` holds a push of the message and
/// nothing else.
pub proof fn law_closed_seals<Seal: TxoSeal>(witness: Witness, seals: Seq<&Seal>, msg: Seq<u8>)
    ensures
        witness.seals_verdict(seals, msg) is Ok ==> forall|k: int|
            0 <= k < seals.len() ==> exists|i: int|
                0 <= i < witness.tx.inputs@.len() && (#[trigger] witness.tx.inputs@[i]).prev_output
                    == (#[trigger] seals[k]).closing_outpoint(witness.txid),
        witness.seals_verdict(seals, msg) is Ok ==> forall|k: int|
            0 <= k < seals.len() ==> (#[trigger] seals[k]).closing_method()
                == seals[0].closing_method(),
        (forall|k: int|
            0 <= k < seals.len() ==> (#[trigger] seals[k]).closing_method()
                == seals[0].closing_method() && witness.tx.spends(
                seals[k].closing_outpoint(witness.txid),
            )) ==> witness.seals_verdict(seals, msg) == match witness.proof.verdict(
            msg,
            witness.tx@.1,
        ) {
            Ok(commits) => Ok::<bool, VerifyError>(commits),
            Err(_) => Err::<bool, VerifyError>(VerifyError::ImpossibleMessage),
        },
        witness.proof is OpretFirst && witness.seals_verdict(seals, msg) is Ok ==> (
        witness.seals_verdict(seals, msg)->Ok_0 <==> exists|i: int|
            0 <= i < witness.tx.outputs@.len() && (
            #[trigger] witness.tx.outputs@[i]).script_pubkey@ == seq![0x6au8, 0x20u8] + msg
                && forall|j: int|
                0 <= j < i && (#[trigger] witness.tx.outputs@[j]).script_pubkey@.len() > 0
                    ==> witness.tx.outputs@[j].script_pubkey@[0] != 0x6a),
{
    law_opret_verdict(witness.tx, msg);
    lemma_no_seal_error(witness, seals, 0);
    if witness.first_seal_error(seals, 0) is None {
        assert forall|k: int| 0 <= k < seals.len() implies (#[trigger] seals[k]).closing_method()
            == seals[0].closing_method() && witness.tx.spends(
            seals[k].closing_outpoint(witness.txid),
        ) by {
            assert(witness.seal_error(seals, k) is None);
        }
    }
    if forall|k: int|
        0 <= k < seals.len() ==> (#[trigger] seals[k]).closing_method()
            == seals[0].closing_method() && witness.tx.spends(
            seals[k].closing_outpoint(witness.txid),
        ) {
        lemma_skipped(witness, seals, seals.len() as int);
    }
}

/// The first of many seals that has another closing method than the first one,
/// or whose output is not spent, decides on the error.
pub proof fn law_faulty_seal<Seal: TxoSeal>(
    witness: Witness,
    seals: Seq<&Seal>,
    k: int,
    msg: Seq<u8>,
)
    requires
        0 <= k < seals.len(),
        forall|j: int|
            0 <= j < k ==> (#[trigger] seals[j]).closing_method() == seals[0].closing_method()
                && witness.tx.spends(seals[j].closing_outpoint(witness.txid)),
    ensures
        seals[k].closing_method() != seals[0].closing_method() ==> witness.seals_verdict(seals, msg)
            == Err::<bool, VerifyError>(VerifyError::InconsistentCloseMethod),
        seals[k].closing_method() == seals[0].closing_method() && !witness.tx.spends(
            seals[k].closing_outpoint(witness.txid),
        ) ==> witness.seals_verdict(seals, msg) == Err::<bool, VerifyError>(
            VerifyError::WitnessNotClosingSeal(
                witness.txid,
                seals[k].closing_outpoint(witness.txid),
            ),
        ),
{
    lemma_skipped(witness, seals, k);
}

/// Where nothing is wrong with the seals before the index, it is the first one
/// that can be faulty.
proof fn lemma_skipped<Seal: TxoSeal>(witness: Witness, seals: Seq<&Seal>, k: int)
    requires
        0 <= k <= seals.len(),
        forall|j: int|
            0 <= j < k ==> (#[trigger] seals[j]).closing_method() == seals[0].closing_method()
                && witness.tx.spends(seals[j].closing_outpoint(witness.txid)),
    ensures
        witness.first_seal_error(seals, 0) == witness.first_seal_error(seals, k),
    decreases k,
{
    if k > 0 {
        lemma_skipped(witness, seals, k - 1);
        assert(seals[k - 1].closing_method() == seals[0].closing_method());
    }
}

/// With an opret proof, a witness closes seals over one message at most, whatever
/// the seals are.
pub proof fn law_seals_one_message<Seal: TxoSeal>(
    witness: Witness,
    seals: Seq<&Seal>,
    others: Seq<&Seal>,
    a: Seq<u8>,
    b: Seq<u8>,
)
    requires
        witness.proof is OpretFirst,
        witness.seals_verdict(seals, a) == Ok::<bool, VerifyError>(true),
        witness.seals_verdict(others, b) == Ok::<bool, VerifyError>(true),
    ensures
        a == b,
{
    law_one_message(witness.proof, witness.tx, a, b);
}

/// With an opret proof, a witness closes a seal over one message at most, and any
/// other seal over no other message.
pub proof fn law_seal_one_message<Seal: TxoSeal>(
    witness: Witness,
    seal: Seal,
    other: Seal,
    a: Seq<u8>,
    b: Seq<u8>,
)
    requires
        witness.proof is OpretFirst,
        witness.seal_verdict(seal, a) == Ok::<bool, VerifyError>(true),
        witness.seal_verdict(other, b) == Ok::<bool, VerifyError>(true),
    ensures
        a == b,
{
    law_one_message(witness.proof, witness.tx, a, b);
}

} // verus!
