//! Deterministic bitcoin commitments: proofs that a transaction commits to a
//! message.
use vstd::prelude::*;

use bc::{
    InternalPk, LeafScript, LeafVer, LockTime, ScriptPubkey, SeqNo, SigScript, Tx as ConsensusTx,
    TxVer, VarIntArray,
};
use commit_verify::ConvolveVerifyError;
use dbc::opret::OpretProof;
use dbc::tapret::{TapretNodePartner, TapretPathProof, TapretProof as DbcTapretProof};

use crate::seals::tx::{Tx, TxIn, TxOut};

verus! {

/// Ways to close a seal over a message.
#[derive(Copy, Clone, PartialEq, Eq, Debug, Structural)]
pub enum CloseMethod {
    /// The message is committed to by the first `OP_RETURN` output.
    OpretFirst,
    /// The message is committed to by the key of the first taproot output.
    TapretFirst,
}

/// What stands beside a tapret commitment in the taproot script tree.
#[derive(Clone, PartialEq, Eq, Debug)]
pub enum NodePartner {
    /// Hash of the node on the left; the commitment stands on the right.
    LeftNode([u8; 32]),
    /// Leaf version and script of the only leaf on the right.
    RightLeaf(u8, Vec<u8>),
    /// Hashes of the two children of the node on the right.
    RightBranch([u8; 32], [u8; 32]),
}

/// Proof of a tapret commitment.
#[derive(Clone, PartialEq, Eq, Debug)]
pub struct TapretProof {
    /// Partner of the commitment in the script tree, if there is a tree.
    pub partner: Option<NodePartner>,
    /// Value which puts the commitment on the right side of its partner.
    pub nonce: u8,
    /// X-only internal key of the taproot output.
    pub internal_pk: [u8; 32],
}

/// Contents of a [`NodePartner`].
pub enum NodePartnerView {
    LeftNode(Seq<u8>),
    RightLeaf(u8, Seq<u8>),
    RightBranch(Seq<u8>, Seq<u8>),
}

impl View for NodePartner {
    type V = NodePartnerView;

    open spec fn view(&self) -> NodePartnerView {
        match *self {
            NodePartner::LeftNode(hash) => NodePartnerView::LeftNode(hash@),
            NodePartner::RightLeaf(version, script) => NodePartnerView::RightLeaf(version, script@),
            NodePartner::RightBranch(a, b) => NodePartnerView::RightBranch(a@, b@),
        }
    }
}

/// The contents of the partner, where there is one.
pub open spec fn partner_view(partner: Option<NodePartner>) -> Option<NodePartnerView> {
    match partner {
        Some(node) => Some(node@),
        None => None,
    }
}

/// Whether a script starts with `OP_RETURN`.
pub open spec fn is_op_return(script: Seq<u8>) -> bool {
    script.len() > 0 && script[0] == 0x6a
}

/// Whether a script is that of a taproot output.
pub open spec fn is_p2tr(script: Seq<u8>) -> bool {
    script.len() == 34 && script[0] == 0x51 && script[1] == 0x20
}

/// Whether some output is a taproot one.
pub open spec fn has_p2tr(outputs: Seq<(u64, Seq<u8>)>) -> bool {
    exists|i: int| 0 <= i < outputs.len() && is_p2tr(#[trigger] outputs[i].1)
}

/// Whether the output at the index is the first that starts with `OP_RETURN`.
pub open spec fn is_first_op_return(outputs: Seq<(u64, Seq<u8>)>, i: int) -> bool {
    &&& 0 <= i < outputs.len()
    &&& is_op_return(outputs[i].1)
    &&& forall|j: int| 0 <= j < i ==> !is_op_return(#[trigger] outputs[j].1)
}

/// Whether the first `OP_RETURN` output pushes the message, and nothing more.
pub open spec fn opret_commits(outputs: Seq<(u64, Seq<u8>)>, msg: Seq<u8>) -> bool {
    exists|i: int| #[trigger]
        is_first_op_return(outputs, i) && outputs[i].1 == seq![0x6au8, 0x20u8] + msg
}

/// The first `OP_RETURN` output of a transaction commits to one message at most.
pub proof fn law_opret_one_message(outputs: Seq<(u64, Seq<u8>)>, a: Seq<u8>, b: Seq<u8>)
    requires
        opret_commits(outputs, a),
        opret_commits(outputs, b),
    ensures
        a == b,
{
    let i = choose|i: int| #[trigger]
        is_first_op_return(outputs, i) && outputs[i].1 == seq![0x6au8, 0x20u8] + a;
    let j = choose|j: int| #[trigger]
        is_first_op_return(outputs, j) && outputs[j].1 == seq![0x6au8, 0x20u8] + b;
    assert(i == j) by {
        if i < j {
            assert(!is_op_return(outputs[i].1));
        }
        if j < i {
            assert(!is_op_return(outputs[j].1));
        }
    }
    assert((seq![0x6au8, 0x20u8] + a).skip(2) =~= a);
    assert((seq![0x6au8, 0x20u8] + b).skip(2) =~= b);
}

/// A transaction of the consensus crate.
#[verifier::external_type_specification]
#[verifier::external_body]
pub struct ExConsensusTx(ConsensusTx);

/// The amounts and locking scripts of the outputs of a transaction of the
/// consensus crate.
pub uninterp spec fn outputs_of(tx: ConsensusTx) -> Seq<(u64, Seq<u8>)>;

/// What `TapretProof::verify` of the commitments crate makes of the proof with
/// these parts, a message and a transaction with these outputs: whether the
/// first taproot output commits to the message, or `None` where no such
/// commitment can be made.
pub uninterp spec fn tapret_verdict(
    partner: Option<NodePartnerView>,
    nonce: u8,
    internal_pk: Seq<u8>,
    msg: Seq<u8>,
    outputs: Seq<(u64, Seq<u8>)>,
) -> Option<bool>;

/// Makes a `bc::Tx` with the same inputs and outputs. Claimed: its outputs have
/// the same amounts and scripts, in order. Its version, lock time, sequence
/// numbers, signature scripts and witnesses are the default ones.
#[verifier::external_body]
fn consensus_tx(tx: &Tx) -> (r: ConsensusTx)
    requires
        tx.well_formed(),
    ensures
        outputs_of(r) == tx@.1,
{
    let input = |i: &TxIn| bc::TxIn {
        prev_output: bc::Outpoint::new(i.prev_output.txid.0.into(), i.prev_output.vout),
        sig_script: SigScript::empty(),
        sequence: SeqNo::from_consensus_u32(0),
        witness: bc::Witness::default(),
    };
    let output = |o: &TxOut| bc::TxOut::new(
        ScriptPubkey::from_checked(o.script_pubkey.clone()), o.value);
    let inputs = VarIntArray::from_iter_checked(tx.inputs.iter().map(input));
    let outputs = VarIntArray::from_iter_checked(tx.outputs.iter().map(output));
    ConsensusTx { version: TxVer::V2, inputs, outputs, lock_time: LockTime::ZERO }
}

/// Calls `OpretProof::verify` of the commitments crate. Claimed: it succeeds
/// exactly where the first output that starts with `OP_RETURN` holds a push of
/// the message behind that and nothing else; every failure is `false` here.
#[verifier::external_body]
fn opret_verify(msg: &[u8; 32], tx: &ConsensusTx) -> (r: bool)
    ensures
        r == opret_commits(outputs_of(*tx), msg@),
{
    OpretProof::default().verify(&(*msg).into(), tx).is_ok()
}

/// Calls `TapretProof::verify` of the commitments crate on the proof with these
/// parts. Claimed: the verdict depends on the parts, the message and the
/// outputs alone, and is `None` where no output is a taproot one. A proof that
/// has no valid key, leaf or partner gets the verdict `None` too. The call
/// assumes, as taproot does, that a tagged hash is below the order of the curve.
#[verifier::external_body]
fn tapret_verify(
    partner: &Option<NodePartner>,
    nonce: u8,
    internal_pk: [u8; 32],
    msg: [u8; 32],
    tx: &ConsensusTx,
) -> (r: Option<bool>)
    ensures
        r == tapret_verdict(partner_view(*partner), nonce, internal_pk@, msg@, outputs_of(*tx)),
        !has_p2tr(outputs_of(*tx)) ==> r is None,
{
    let path_proof = match partner.clone() {
        None => Ok(TapretPathProof::root(nonce)),
        Some(NodePartner::LeftNode(h)) =>
            TapretPathProof::with(TapretNodePartner::LeftNode(h.into()), nonce),
        Some(NodePartner::RightLeaf(v, s)) => TapretPathProof::with(TapretNodePartner::RightLeaf(
            LeafScript::with_bytes(LeafVer::from_consensus_u8(v).ok()?, s).ok()?), nonce),
        Some(NodePartner::RightBranch(a, b)) =>
            TapretPathProof::with(TapretNodePartner::right_branch(a.into(), b.into()), nonce)
    }.ok()?;
    let internal_pk = InternalPk::from_byte_array(internal_pk).ok()?;
    let proof = DbcTapretProof { path_proof, internal_pk };
    match proof.verify(&msg.into(), tx) {
        Err(ConvolveVerifyError::ImpossibleMessage) => None,
        other => Some(other.is_ok())
    }
}

/// No commitment to the message can be made the way the proof says.
#[derive(Copy, Clone, PartialEq, Eq, Debug, Structural)]
pub struct ImpossibleMessage;

/// Proof that a transaction commits to a message.
#[derive(Clone, PartialEq, Eq, Debug)]
pub enum Proof {
    /// Commitment in the first `OP_RETURN` output.
    OpretFirst,
    /// Commitment in the first taproot output.
    TapretFirst(TapretProof),
}

impl Proof {
    /// The outcome of verifying the proof against a message and the outputs of
    /// a transaction.
    pub open spec fn verdict(
        &self,
        msg: Seq<u8>,
        outputs: Seq<(u64, Seq<u8>)>,
    ) -> Result<bool, ImpossibleMessage> {
        match *self {
            Proof::OpretFirst => Ok(opret_commits(outputs, msg)),
            Proof::TapretFirst(proof) => match tapret_verdict(
                partner_view(proof.partner),
                proof.nonce,
                proof.internal_pk@,
                msg,
                outputs,
            ) {
                Some(commits) => Ok(commits),
                None => Err(ImpossibleMessage),
            },
        }
    }

    /// Tells whether the transaction commits to the message in the way that the
    /// proof says; an error where no such commitment can be made, such as that
    /// of a tapret proof where no output is a taproot one.
    pub fn verify(&self, msg: &[u8; 32], tx: &Tx) -> (r: Result<bool, ImpossibleMessage>)
        requires
            tx.well_formed(),
        ensures
            r == self.verdict(msg@, tx@.1),
            self is TapretFirst && !has_p2tr(tx@.1) ==> r == Err::<bool, ImpossibleMessage>(
                ImpossibleMessage,
            ),
            self is OpretFirst ==> r is Ok,
            self is OpretFirst ==> (r == Ok::<bool, ImpossibleMessage>(true) <==> exists|i: int|
                0 <= i < tx.outputs@.len() && (#[trigger] tx.outputs@[i]).script_pubkey@
                    == seq![0x6au8, 0x20u8] + msg@ && forall|j: int|
                    0 <= j < i && (#[trigger] tx.outputs@[j]).script_pubkey@.len() > 0
                        ==> tx.outputs@[j].script_pubkey@[0] != 0x6a),
            self is TapretFirst && (forall|i: int|
                0 <= i < tx.outputs@.len() ==> !((#[trigger] tx.outputs@[i]).script_pubkey@.len()
                    == 34 && tx.outputs@[i].script_pubkey@[0] == 0x51
                    && tx.outputs@[i].script_pubkey@[1] == 0x20)) ==> r is Err,
            self matches Proof::TapretFirst(proof) ==> match tapret_verdict(
                partner_view(proof.partner),
                proof.nonce,
                proof.internal_pk@,
                msg@,
                tx@.1,
            ) {
                Some(commits) => r == Ok::<bool, ImpossibleMessage>(commits),
                None => r == Err::<bool, ImpossibleMessage>(ImpossibleMessage),
            },
    {
        proof {
            law_opret_verdict(*tx, msg@);
            law_has_p2tr(*tx);
        }
        let outside = consensus_tx(tx);
        match self {
            Proof::OpretFirst => Ok(opret_verify(msg, &outside)),
            Proof::TapretFirst(proof) => {
                match tapret_verify(
                    &proof.partner,
                    proof.nonce,
                    proof.internal_pk,
                    *msg,
                    &outside,
                ) {
                    Some(commits) => Ok(commits),
                    None => Err(ImpossibleMessage),
                }
            },
        }
    }
}

/// An opret proof has the outcome `true` for a message exactly where some output
/// has the script `0x6a 0x20` with the message behind it and no script before it
/// starts with `0x6a`, and `false` otherwise; it is never an error.
pub proof fn law_opret_verdict(tx: Tx, msg: Seq<u8>)
    ensures
        Proof::OpretFirst.verdict(msg, tx@.1) == Ok::<bool, ImpossibleMessage>(
            exists|i: int|
                0 <= i < tx.outputs@.len() && (#[trigger] tx.outputs@[i]).script_pubkey@
                    == seq![0x6au8, 0x20u8] + msg && forall|j: int|
                    0 <= j < i && (#[trigger] tx.outputs@[j]).script_pubkey@.len() > 0
                        ==> tx.outputs@[j].script_pubkey@[0] != 0x6a,
        ),
{
    let outputs = tx.outputs@;
    assert(outputs.len() == tx@.1.len());
    assert(forall|i: int|
        0 <= i < outputs.len() ==> #[trigger] tx@.1[i].1 == outputs[i].script_pubkey@);
    let push = seq![0x6au8, 0x20u8] + msg;
    assert(push.len() > 0 && push[0] == 0x6a);
    if opret_commits(tx@.1, msg) {
        let i = choose|i: int| #[trigger] is_first_op_return(tx@.1, i) && tx@.1[i].1 == push;
        assert(outputs[i].script_pubkey@ == push);
        assert forall|j: int|
            0 <= j < i && (#[trigger] outputs[j]).script_pubkey@.len() > 0 implies
            outputs[j].script_pubkey@[0] != 0x6a by {
            assert(!is_op_return(tx@.1[j].1));
        }
    }
    if exists|i: int|
        0 <= i < outputs.len() && (#[trigger] outputs[i]).script_pubkey@ == push && forall|j: int|
            0 <= j < i && (#[trigger] outputs[j]).script_pubkey@.len() > 0
                ==> outputs[j].script_pubkey@[0] != 0x6a {
        let i = choose|i: int|
            0 <= i < outputs.len() && (#[trigger] outputs[i]).script_pubkey@ == push && forall|
                j: int,
            |
                0 <= j < i && (#[trigger] outputs[j]).script_pubkey@.len() > 0
                    ==> outputs[j].script_pubkey@[0] != 0x6a;
        assert(tx@.1[i].1 == outputs[i].script_pubkey@);
        assert forall|j: int| 0 <= j < i implies !is_op_return(#[trigger] tx@.1[j].1) by {
            assert(tx@.1[j].1 == outputs[j].script_pubkey@);
        }
        assert(is_first_op_return(tx@.1, i));
    }
}

/// The first output whose script starts with `0x6a` decides on an opret proof:
/// the message is committed to where that script is `0x6a 0x20` and the message.
/// No message is committed to where there is no such output.
pub proof fn law_first_op_return(tx: Tx, i: int, msg: Seq<u8>)
    requires
        0 <= i <= tx.outputs@.len(),
        i < tx.outputs@.len() ==> tx.outputs@[i].script_pubkey@.len() > 0
            && tx.outputs@[i].script_pubkey@[0] == 0x6a,
        forall|j: int|
            0 <= j < i && (#[trigger] tx.outputs@[j]).script_pubkey@.len() > 0
                ==> tx.outputs@[j].script_pubkey@[0] != 0x6a,
    ensures
        Proof::OpretFirst.verdict(msg, tx@.1) == Ok::<bool, ImpossibleMessage>(
            i < tx.outputs@.len() && tx.outputs@[i].script_pubkey@ == seq![0x6au8, 0x20u8] + msg,
        ),
{
    law_opret_verdict(tx, msg);
    let push = seq![0x6au8, 0x20u8] + msg;
    assert(push.len() > 0 && push[0] == 0x6a);
}

/// An opret proof has the outcome `true` for one message at most of each
/// transaction.
pub proof fn law_one_message(proof: Proof, tx: Tx, a: Seq<u8>, b: Seq<u8>)
    requires
        proof is OpretFirst,
        proof.verdict(a, tx@.1) == Ok::<bool, ImpossibleMessage>(true),
        proof.verdict(b, tx@.1) == Ok::<bool, ImpossibleMessage>(true),
    ensures
        a == b,
{
    law_opret_one_message(tx@.1, a, b);
}

/// A tapret proof has the outcome that the commitments crate gives for its parts.
pub proof fn law_tapret_verdict(proof: TapretProof, msg: Seq<u8>, outputs: Seq<(u64, Seq<u8>)>)
    ensures
        Proof::TapretFirst(proof).verdict(msg, outputs) == match tapret_verdict(
            partner_view(proof.partner),
            proof.nonce,
            proof.internal_pk@,
            msg,
            outputs,
        ) {
            Some(commits) => Ok::<bool, ImpossibleMessage>(commits),
            None => Err::<bool, ImpossibleMessage>(ImpossibleMessage),
        },
{
}

/// The contents of a partner are its kind, its hashes or its leaf.
pub proof fn law_partner_view(hash: [u8; 32], other: [u8; 32], version: u8, script: Vec<u8>)
    ensures
        partner_view(None) is None,
        partner_view(Some(NodePartner::LeftNode(hash))) == Some(NodePartnerView::LeftNode(hash@)),
        partner_view(Some(NodePartner::RightLeaf(version, script))) == Some(
            NodePartnerView::RightLeaf(version, script@),
        ),
        partner_view(Some(NodePartner::RightBranch(hash, other))) == Some(
            NodePartnerView::RightBranch(hash@, other@),
        ),
{
}

/// A transaction has a taproot output where some script is `0x51 0x20` with
/// 32 bytes behind it.
pub proof fn law_has_p2tr(tx: Tx)
    ensures
        has_p2tr(tx@.1) <==> exists|i: int|
            0 <= i < tx.outputs@.len() && (#[trigger] tx.outputs@[i]).script_pubkey@.len() == 34
                && tx.outputs@[i].script_pubkey@[0] == 0x51 && tx.outputs@[i].script_pubkey@[1]
                == 0x20,
{
    let outputs = tx.outputs@;
    assert(forall|i: int|
        0 <= i < outputs.len() ==> #[trigger] tx@.1[i].1 == outputs[i].script_pubkey@);
    if exists|i: int|
        0 <= i < outputs.len() && (#[trigger] outputs[i]).script_pubkey@.len() == 34
            && outputs[i].script_pubkey@[0] == 0x51 && outputs[i].script_pubkey@[1] == 0x20 {
        let i = choose|i: int|
            0 <= i < outputs.len() && (#[trigger] outputs[i]).script_pubkey@.len() == 34
                && outputs[i].script_pubkey@[0] == 0x51 && outputs[i].script_pubkey@[1] == 0x20;
        assert(is_p2tr(tx@.1[i].1));
    }
}

} // verus!
