use bc::{InternalPk, LeafScript, LeafVer};
use commit_verify::mpc::Commitment;
use commit_verify::ConvolveCommit;
use dbc::tapret::{TapretNodePartner, TapretPathProof};
use lnpbp_invoice::seals::commitment::{
    CloseMethod, ImpossibleMessage, NodePartner, Proof, TapretProof,
};
use lnpbp_invoice::seals::tx::{Outpoint, Tx, TxIn, TxOut, Txid};
use lnpbp_invoice::seals::witness::{commitment_result, ExplicitSeal, TxoSeal, VerifyError};
use lnpbp_invoice::Witness;

const MSG: [u8; 32] = [8u8; 32];
const KEY: [u8; 32] = [
    0xc5, 0xf9, 0x34, 0x79, 0x09, 0x3e, 0x2b, 0x8f, 0x72, 0x4a, 0x79, 0x84, 0x4c, 0xc1, 0x09, 0x28,
    0xdd, 0x44, 0xe9, 0xa3, 0x90, 0xb5, 0x39, 0x84, 0x3f, 0xb8, 0x3f, 0xbf, 0x84, 0x27, 0x23, 0xf3,
];
const WITNESS_TXID: Txid = Txid([0x11u8; 32]);
const OTHER_TXID: Txid = Txid([0x22u8; 32]);

fn spent(txid: Txid, vout: u32) -> TxIn {
    TxIn { prev_output: Outpoint { txid, vout } }
}

fn output(script: &[u8]) -> TxOut {
    TxOut { value: 1000, script_pubkey: script.to_vec() }
}

fn opret_script(msg: &[u8; 32]) -> Vec<u8> {
    let mut script = vec![0x6au8, 0x20];
    script.extend_from_slice(msg);
    script
}

fn tapret_script(path_proof: &TapretPathProof, msg: &[u8; 32]) -> Option<Vec<u8>> {
    let internal_pk = InternalPk::from_byte_array(KEY).unwrap();
    let (key, _) = internal_pk.convolve_commit(path_proof, &Commitment::from(*msg)).ok()?;
    let mut script = vec![0x51u8, 0x20];
    script.extend_from_slice(&key.serialize());
    Some(script)
}

fn tapret(partner: Option<NodePartner>, nonce: u8) -> Proof {
    Proof::TapretFirst(TapretProof { partner, nonce, internal_pk: KEY })
}

fn witness(outputs: Vec<TxOut>, proof: Proof) -> Witness {
    let inputs = vec![spent(OTHER_TXID, 0), spent(OTHER_TXID, 1), spent(WITNESS_TXID, 7)];
    Witness { tx: Tx { inputs, outputs }, txid: WITNESS_TXID, proof }
}

fn seal(method: CloseMethod, txid: Option<Txid>, vout: u32) -> ExplicitSeal {
    ExplicitSeal { method, txid, vout }
}

const OPRET: CloseMethod = CloseMethod::OpretFirst;
const TAPRET: CloseMethod = CloseMethod::TapretFirst;

#[test]
fn opret_witness_closes_seal() {
    let w = witness(vec![output(&[0x51]), output(&opret_script(&MSG))], Proof::OpretFirst);
    assert_eq!(w.verify_seal(&seal(OPRET, Some(OTHER_TXID), 1), &MSG), Ok(true));
    assert_eq!(w.verify_seal(&seal(TAPRET, Some(OTHER_TXID), 1), &MSG), Ok(true));
    assert_eq!(w.verify_seal(&seal(OPRET, Some(OTHER_TXID), 1), &[9u8; 32]), Ok(false));
}

#[test]
fn seal_without_txid_is_over_the_witness() {
    let w = witness(vec![output(&opret_script(&MSG))], Proof::OpretFirst);
    let s = seal(OPRET, None, 7);
    assert_eq!(s.outpoint_or(WITNESS_TXID), Outpoint { txid: WITNESS_TXID, vout: 7 });
    assert_eq!(s.method(), OPRET);
    assert_eq!(w.verify_seal(&s, &MSG), Ok(true));
    assert_eq!(
        w.verify_seal(&seal(OPRET, None, 0), &MSG),
        Err(VerifyError::WitnessNotClosingSeal(
            WITNESS_TXID,
            Outpoint { txid: WITNESS_TXID, vout: 0 }
        ))
    );
}

#[test]
fn witness_must_spend_the_output() {
    let w = witness(vec![output(&opret_script(&MSG))], Proof::OpretFirst);
    let outpoint = Outpoint { txid: OTHER_TXID, vout: 2 };
    let error = Err(VerifyError::WitnessNotClosingSeal(WITNESS_TXID, outpoint));
    assert_eq!(w.verify_seal(&seal(OPRET, Some(OTHER_TXID), 2), &MSG), error);
    let seals = [seal(OPRET, Some(OTHER_TXID), 0), seal(OPRET, Some(OTHER_TXID), 2)];
    assert_eq!(w.verify_many_seals(&[&seals[0], &seals[1]], &MSG), error);
}

#[test]
fn only_the_first_op_return_counts() {
    let good = opret_script(&MSG);
    let verify = |scripts: &[&[u8]]| {
        let outputs = scripts.iter().map(|s| output(s)).collect();
        witness(outputs, Proof::OpretFirst).verify_seal(&seal(OPRET, Some(OTHER_TXID), 0), &MSG)
    };
    assert_eq!(verify(&[&good, &[0x6a]]), Ok(true));
    assert_eq!(verify(&[&[], &good]), Ok(true));
    assert_eq!(verify(&[&[0x6a], &good]), Ok(false));
    assert_eq!(verify(&[&opret_script(&[1u8; 32]), &good]), Ok(false));
    assert_eq!(verify(&[&good[..33]]), Ok(false));
    let mut long = good.clone();
    long.push(0);
    assert_eq!(verify(&[&long]), Ok(false));
    let mut other = good.clone();
    other[1] = 0x21;
    assert_eq!(verify(&[&other]), Ok(false));
    assert_eq!(verify(&[&[0x51], &[0x52]]), Ok(false));
    assert_eq!(verify(&[]), Ok(false));
}

#[test]
fn many_seals_share_the_closing_method() {
    let w = witness(vec![output(&opret_script(&MSG))], Proof::OpretFirst);
    let a = seal(OPRET, Some(OTHER_TXID), 0);
    let b = seal(OPRET, Some(OTHER_TXID), 1);
    let c = seal(TAPRET, Some(OTHER_TXID), 1);
    let open = seal(OPRET, Some(OTHER_TXID), 9);
    assert_eq!(w.verify_many_seals(&[&a, &b, &a], &MSG), Ok(true));
    assert_eq!(w.verify_many_seals(&[&b, &a, &a], &MSG), Ok(true));
    assert_eq!(w.verify_many_seals(&[&b, &b], &MSG), Ok(true));
    assert_eq!(w.verify_many_seals(&[&a, &c], &MSG), Err(VerifyError::InconsistentCloseMethod));
    assert_eq!(w.verify_many_seals(&[&c, &a], &MSG), Err(VerifyError::InconsistentCloseMethod));
    // The first faulty seal decides.
    assert_eq!(w.verify_many_seals(&[&a, &c, &open], &MSG), Err(VerifyError::InconsistentCloseMethod));
    let outpoint = Outpoint { txid: OTHER_TXID, vout: 9 };
    assert_eq!(
        w.verify_many_seals(&[&a, &open, &c], &MSG),
        Err(VerifyError::WitnessNotClosingSeal(WITNESS_TXID, outpoint))
    );
    // The method of a seal is looked at before its output.
    assert_eq!(w.verify_many_seals(&[&c, &open], &MSG), Err(VerifyError::InconsistentCloseMethod));
}

#[test]
fn no_seals_leave_the_commitment() {
    let none: [&ExplicitSeal; 0] = [];
    let w = witness(vec![output(&opret_script(&MSG))], Proof::OpretFirst);
    assert_eq!(w.verify_many_seals(&none, &MSG), Ok(true));
    assert_eq!(w.verify_many_seals(&none, &[0u8; 32]), Ok(false));
    let w = witness(vec![], tapret(None, 0));
    assert_eq!(w.verify_many_seals(&none, &MSG), Err(VerifyError::ImpossibleMessage));
}

#[test]
fn one_seal_is_verified_as_a_list_of_one() {
    for outputs in [vec![output(&opret_script(&MSG))], vec![]] {
        let w = witness(outputs, Proof::OpretFirst);
        for vout in [0u32, 1, 2, 7] {
            for txid in [None, Some(OTHER_TXID)] {
                let s = seal(OPRET, txid, vout);
                assert_eq!(w.verify_many_seals(&[&s], &MSG), w.verify_seal(&s, &MSG));
            }
        }
    }
}

#[test]
fn tapret_witness_closes_seal() {
    let script = tapret_script(&TapretPathProof::root(0), &MSG).unwrap();
    let s = seal(TAPRET, Some(OTHER_TXID), 0);
    let outputs = vec![output(&[0x6a]), output(&script)];
    let w = witness(outputs.clone(), tapret(None, 0));
    assert_eq!(w.verify_seal(&s, &MSG), Ok(true));
    assert_eq!(w.verify_many_seals(&[&s, &s], &MSG), Ok(true));
    assert_eq!(w.verify_seal(&s, &[9u8; 32]), Ok(false));
    assert_eq!(witness(outputs.clone(), tapret(None, 1)).verify_seal(&s, &MSG), Ok(false));
    let partner = Some(NodePartner::LeftNode([0u8; 32]));
    assert_eq!(witness(outputs, tapret(partner, 0)).verify_seal(&s, &MSG), Ok(false));
}

#[test]
fn only_the_first_taproot_output_counts() {
    let script = tapret_script(&TapretPathProof::root(0), &MSG).unwrap();
    let other = tapret_script(&TapretPathProof::root(0), &[0u8; 32]).unwrap();
    let s = seal(TAPRET, Some(OTHER_TXID), 0);
    let w = witness(vec![output(&script), output(&other)], tapret(None, 0));
    assert_eq!(w.verify_seal(&s, &MSG), Ok(true));
    let w = witness(vec![output(&other), output(&script)], tapret(None, 0));
    assert_eq!(w.verify_seal(&s, &MSG), Ok(false));
}

#[test]
fn tapret_commitment_has_a_partner() {
    let s = seal(TAPRET, Some(OTHER_TXID), 0);
    let leaf = LeafScript::with_bytes(LeafVer::TapScript, vec![]).unwrap();
    let a = [0xfeu8; 32];
    let b = [0xffu8; 32];
    let partners = vec![
        (NodePartner::LeftNode([0u8; 32]), TapretNodePartner::LeftNode([0u8; 32].into())),
        (NodePartner::RightLeaf(0xc0, vec![]), TapretNodePartner::RightLeaf(leaf)),
        (NodePartner::RightBranch(a, b), TapretNodePartner::right_branch(a.into(), b.into())),
    ];
    for (partner, outside) in partners {
        let (nonce, script) = (0u8..=255)
            .find_map(|nonce| {
                let path_proof = TapretPathProof::with(outside.clone(), nonce).ok()?;
                Some((nonce, tapret_script(&path_proof, &MSG)?))
            })
            .unwrap();
        let w = witness(vec![output(&script)], tapret(Some(partner.clone()), nonce));
        assert_eq!(w.verify_seal(&s, &MSG), Ok(true));
        let w = witness(vec![output(&script)], tapret(None, nonce));
        assert_eq!(w.verify_seal(&s, &MSG), Ok(false));
    }
}

#[test]
fn impossible_commitments_are_errors() {
    let s = seal(TAPRET, Some(OTHER_TXID), 0);
    let script = tapret_script(&TapretPathProof::root(0), &MSG).unwrap();
    let error = Err(VerifyError::ImpossibleMessage);
    // No taproot output
    let w = witness(vec![output(&opret_script(&MSG)), output(&script[..33])], tapret(None, 0));
    assert_eq!(w.verify_seal(&s, &MSG), error);
    assert_eq!(w.proof.verify(&MSG, &w.tx), Err(ImpossibleMessage));
    // The partner must not be greater than the commitment on its right
    let partner = Some(NodePartner::LeftNode([0xffu8; 32]));
    let w = witness(vec![output(&script)], tapret(partner, 0));
    assert_eq!(w.verify_seal(&s, &MSG), error);
    // No leaf version is odd
    let partner = Some(NodePartner::RightLeaf(0xc1, vec![]));
    let w = witness(vec![output(&script)], tapret(partner, 0));
    assert_eq!(w.verify_seal(&s, &MSG), error);
    // No key
    let proof = TapretProof { partner: None, nonce: 0, internal_pk: [0xffu8; 32] };
    let w = witness(vec![output(&script)], Proof::TapretFirst(proof));
    assert_eq!(w.verify_seal(&s, &MSG), error);
}

#[test]
fn partner_must_hold_no_commitment() {
    let mut leaf = vec![0x61u8; 29];
    leaf.extend_from_slice(&[0x6a, 0x21]);
    leaf.extend_from_slice(&[0u8; 33]);
    let s = seal(TAPRET, Some(OTHER_TXID), 0);
    let script = tapret_script(&TapretPathProof::root(0), &MSG).unwrap();
    let w = witness(vec![output(&script)], tapret(Some(NodePartner::RightLeaf(0xc0, leaf)), 0));
    assert_eq!(w.verify_seal(&s, &MSG), Err(VerifyError::ImpossibleMessage));
}

#[test]
fn verdicts_become_outcomes() {
    assert_eq!(commitment_result(Ok(true)), Ok(true));
    assert_eq!(commitment_result(Ok(false)), Ok(false));
    assert_eq!(commitment_result(Err(ImpossibleMessage)), Err(VerifyError::ImpossibleMessage));
}

#[test]
fn transactions_are_bounded() {
    let w = witness(vec![output(&[0x51])], Proof::OpretFirst);
    assert!(w.tx.is_well_formed());
    assert!(w.tx.spends_output(Outpoint { txid: OTHER_TXID, vout: 1 }));
    assert!(!w.tx.spends_output(Outpoint { txid: WITNESS_TXID, vout: 1 }));
}
