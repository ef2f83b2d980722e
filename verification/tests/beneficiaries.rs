use lnpbp_invoice::address::{Address, Network, Payload};
use lnpbp_invoice::beneficiary::{Descriptor, DescriptorForm, OutpointHash, Psbt};
use lnpbp_invoice::lightning::ShortChannelId;
use lnpbp_invoice::{Beneficiary, BeneficiaryParseError, LnAddress, LnPathHint};

const OUTPOINT_TEXT: &str = "utxob1ahrfaknwtv28c4yyhat5d9uel045ph797kxauj63p2gzykta9lkskn6smk";
const OUTPOINT: [u8; 32] = [
    0xed, 0xc6, 0x9e, 0xda, 0x6e, 0x5b, 0x14, 0x7c, 0x54, 0x84, 0xbf, 0x57, 0x46, 0x97, 0x99, 0xfb,
    0xeb, 0x40, 0xdf, 0xc5, 0xf5, 0x8d, 0xde, 0x4b, 0x51, 0x0a, 0x90, 0x22, 0x59, 0x7d, 0x2f, 0xed,
];
const KEY_HASH: [u8; 20] = [
    0x75, 0x1e, 0x76, 0xe8, 0x19, 0x91, 0x96, 0xd4, 0x54, 0x94, 0x1c, 0x45, 0xd1, 0xb3, 0xa3, 0x23,
    0xf1, 0x43, 0x3b, 0xd6,
];
const SCRIPT: &str = "wpkh(02f9308a019258c31049344f85f89d5229b531c845836f99b08601f113bce036f9)";

fn address(payload: Payload, network: Network) -> Beneficiary {
    Beneficiary::Address(Address { payload, network })
}

fn descriptor(form: DescriptorForm, text: &str) -> Descriptor {
    Descriptor { form, text: text.to_string() }
}

fn node() -> LnAddress {
    let mut node_id = [0xabu8; 33];
    node_id[0] = 0x02;
    node_id[32] = 0x0f;
    LnAddress {
        node_id,
        features: vec![],
        lock: [1u8; 32],
        min_final_cltv_expiry: None,
        path_hints: vec![],
    }
}

#[test]
fn segwit_addresses_are_read() {
    let expected = address(Payload::WitnessProgram(0, KEY_HASH.to_vec()), Network::Bitcoin);
    assert_eq!(
        Beneficiary::from_str("bc1qw508d6qejxtdg4y5r3zarvary0c5xw7kv8f3t4"),
        Ok(expected.clone())
    );
    assert_eq!(
        Beneficiary::from_str("BC1QW508D6QEJXTDG4Y5R3ZARVARY0C5XW7KV8F3T4"),
        Ok(expected)
    );
    assert_eq!(
        Beneficiary::from_str("tb1p29gsjjncme"),
        Ok(address(Payload::WitnessProgram(1, vec![0x51, 0x51]), Network::Testnet))
    );
    assert_eq!(
        Beneficiary::from_str("bc1qw508d6qejxtdg4y5r3zarvary0c5xw7kv8f3t5"),
        Err(BeneficiaryParseError)
    );
}

#[test]
fn base58_addresses_are_read() {
    assert_eq!(
        Beneficiary::from_str("32LB5ANdvjNPoW3DXLXUt6ra7Lih9WeBJN"),
        Ok(address(Payload::ScriptHash([7u8; 20]), Network::Bitcoin))
    );
    assert_eq!(
        Beneficiary::from_str("mgLjCZefJ6DZGQ4LX25Wz6hrpBsFHXVnWS"),
        Ok(address(Payload::PubkeyHash([9u8; 20]), Network::Testnet))
    );
    assert_eq!(
        Beneficiary::from_str("32LB5ANdvjNPoW3DXLXUt6ra7Lih9WeBJM"),
        Err(BeneficiaryParseError)
    );
}

#[test]
fn blinded_outpoints_are_read() {
    assert_eq!(
        Beneficiary::from_str(OUTPOINT_TEXT),
        Ok(Beneficiary::BlindUtxo(OutpointHash(OUTPOINT)))
    );
    assert_eq!(
        Beneficiary::from_str("utxob1qqqsyqcyq5rqwzqfpg9scrgwpugpzysnzs23v9ccrydpk8qarc0sd0ultp"),
        Err(BeneficiaryParseError)
    );
}

#[test]
fn descriptors_are_read() {
    let full = format!("{}#8zl0zxma", SCRIPT);
    let expected = Beneficiary::Descriptor(descriptor(DescriptorForm::Wpkh, &full));
    assert_eq!(Beneficiary::from_str(SCRIPT), Ok(expected.clone()));
    assert_eq!(Beneficiary::from_str(&full), Ok(expected.clone()));
    assert_eq!(expected.to_string(), full);
    assert_eq!(
        Beneficiary::from_str(&format!("{}#8zl0zxmq", SCRIPT)),
        Err(BeneficiaryParseError)
    );
}

#[test]
fn descriptors_of_one_text_are_told_apart() {
    let key = &SCRIPT[5..SCRIPT.len() - 1];
    let forms = |s: String| match Beneficiary::from_str(&s) {
        Ok(Beneficiary::Descriptor(descriptor)) => (descriptor.form, descriptor.text),
        other => panic!("{:?}", other),
    };
    let (pkh, pkh_text) = forms(format!("pkh({})", key));
    let (bare, bare_text) = forms(format!("c:pk_h({})", key));
    assert_eq!(pkh, DescriptorForm::Pkh);
    assert_eq!(bare, DescriptorForm::Bare);
    assert_eq!(pkh_text, bare_text);
    assert_ne!(
        Beneficiary::from_str(&format!("pkh({})", key)),
        Beneficiary::from_str(&format!("c:pk_h({})", key))
    );
    assert_eq!(forms(format!("pk({})", key)).0, DescriptorForm::Bare);
    assert_eq!(forms(format!("c:pk_k({})", key)), forms(format!("pk({})", key)));
    assert_eq!(forms(format!("sh(wpkh({}))", key)).0, DescriptorForm::Sh);
    assert_eq!(forms(format!("wsh(pk({}))", key)).0, DescriptorForm::Wsh);
}

#[test]
fn other_texts_are_no_beneficiaries() {
    for s in ["", "any", "PSBT!", "data1qypqxeykefv", "wpkh()", " ", "\u{e9}"] {
        assert_eq!(Beneficiary::from_str(s), Err(BeneficiaryParseError), "{}", s);
    }
    assert_eq!(
        Beneficiary::from_str(&node().to_string()),
        Err(BeneficiaryParseError)
    );
    assert_eq!(BeneficiaryParseError.to_string(), "Incorrect beneficiary format");
}

#[test]
fn what_is_read_first_is_chosen() {
    let a = Address { payload: Payload::PubkeyHash([1u8; 20]), network: Network::Regtest };
    let o = OutpointHash([2u8; 32]);
    let d = descriptor(DescriptorForm::Sh, "d");
    assert_eq!(
        Beneficiary::from_parsed(Some(a.clone()), Some(o), Some(d.clone())),
        Ok(Beneficiary::Address(a))
    );
    assert_eq!(
        Beneficiary::from_parsed(None, Some(o), Some(d.clone())),
        Ok(Beneficiary::BlindUtxo(o))
    );
    assert_eq!(
        Beneficiary::from_parsed(None, None, Some(d.clone())),
        Ok(Beneficiary::Descriptor(d))
    );
    assert_eq!(Beneficiary::from_parsed(None, None, None), Err(BeneficiaryParseError));
}

#[test]
fn beneficiaries_are_written() {
    assert_eq!(
        address(Payload::WitnessProgram(0, KEY_HASH.to_vec()), Network::Bitcoin).to_string(),
        "bc1qw508d6qejxtdg4y5r3zarvary0c5xw7kv8f3t4"
    );
    assert_eq!(
        address(Payload::ScriptHash([7u8; 20]), Network::Bitcoin).to_string(),
        "32LB5ANdvjNPoW3DXLXUt6ra7Lih9WeBJN"
    );
    assert_eq!(
        address(Payload::PubkeyHash([9u8; 20]), Network::Signet).to_string(),
        "mgLjCZefJ6DZGQ4LX25Wz6hrpBsFHXVnWS"
    );
    assert_eq!(Beneficiary::BlindUtxo(OutpointHash(OUTPOINT)).to_string(), OUTPOINT_TEXT);
    assert_eq!(Beneficiary::Psbt(Psbt(vec![1, 2])).to_string(), "PSBT!");
    assert_eq!(Beneficiary::Unknown(vec![1, 2, 3]).to_string(), "data1qypqxeykefv");
    let hex = format!("02{}0f", "ab".repeat(31));
    assert_eq!(Beneficiary::Lightning(node()).to_string(), hex);
}

#[test]
fn written_addresses_and_outpoints_are_read_back() {
    let networks = [Network::Bitcoin, Network::Testnet];
    let mut all = vec![Beneficiary::BlindUtxo(OutpointHash([0xffu8; 32]))];
    for network in networks {
        all.push(address(Payload::PubkeyHash([0u8; 20]), network));
        all.push(address(Payload::PubkeyHash([0xffu8; 20]), network));
        all.push(address(Payload::ScriptHash([0xffu8; 20]), network));
    }
    for network in [Network::Bitcoin, Network::Testnet, Network::Regtest] {
        all.push(address(Payload::WitnessProgram(0, vec![0u8; 32]), network));
        all.push(address(Payload::WitnessProgram(16, vec![3u8; 40]), network));
        all.push(address(Payload::WitnessProgram(1, vec![3u8; 2]), network));
    }
    for beneficiary in all {
        assert!(beneficiary.is_well_formed());
        assert_eq!(Beneficiary::from_str(&beneficiary.to_string()), Ok(beneficiary));
    }
}

#[test]
fn some_addresses_are_read_back_as_others() {
    assert_eq!(
        Beneficiary::from_str(&address(Payload::PubkeyHash([9u8; 20]), Network::Regtest).to_string()),
        Ok(address(Payload::PubkeyHash([9u8; 20]), Network::Testnet))
    );
    let signet = address(Payload::WitnessProgram(0, KEY_HASH.to_vec()), Network::Signet);
    assert_eq!(
        Beneficiary::from_str(&signet.to_string()),
        Ok(address(Payload::WitnessProgram(0, KEY_HASH.to_vec()), Network::Testnet))
    );
    assert!(!address(Payload::WitnessProgram(32, vec![]), Network::Bitcoin).is_well_formed());
}

#[test]
fn beneficiaries_are_made() {
    let a = Address { payload: Payload::PubkeyHash([1u8; 20]), network: Network::Bitcoin };
    assert_eq!(Beneficiary::from(a.clone()), Beneficiary::Address(a));
    assert_eq!(
        Beneficiary::from(OutpointHash(OUTPOINT)),
        Beneficiary::BlindUtxo(OutpointHash(OUTPOINT))
    );
    let d = descriptor(DescriptorForm::Wpkh, SCRIPT);
    assert_eq!(Beneficiary::from(d.clone()), Beneficiary::Descriptor(d));
    assert_eq!(Beneficiary::from(Psbt(vec![5])), Beneficiary::Psbt(Psbt(vec![5])));
    assert_eq!(Beneficiary::from(node()), Beneficiary::Lightning(node()));
}

#[test]
fn path_hints_are_written() {
    let short_channel_id = ShortChannelId { block_height: 539268, tx_index: 845, output_index: 1 };
    assert_eq!(short_channel_id.to_string(), "539268x845x1");
    let hint = LnPathHint {
        node_id: [0x03u8; 33],
        short_channel_id,
        fee_base_msat: 1,
        fee_proportional_millionths: 2,
        cltv_expiry_delta: 3,
    };
    assert_eq!(hint.to_string(), format!("539268x845x1@{}", "03".repeat(33)));
}

#[test]
fn channels_have_eight_bytes() {
    let id = ShortChannelId { block_height: 0x083a84, tx_index: 0x034d, output_index: 0x0102 };
    let bytes = id.to_bytes();
    assert_eq!(bytes, [0x08, 0x3a, 0x84, 0x00, 0x03, 0x4d, 0x01, 0x02]);
    assert_eq!(ShortChannelId::from_bytes(bytes), id);
    let high = ShortChannelId { block_height: 0x01000002, tx_index: 0xffffff, output_index: 0xffff };
    assert_eq!(
        ShortChannelId::from_bytes(high.to_bytes()),
        ShortChannelId { block_height: 2, tx_index: 0xffffff, output_index: 0xffff }
    );
}
