use lnpbp_invoice::beneficiary::{OutpointHash, Psbt};
use lnpbp_invoice::chain::{AssetId, Chain};
use lnpbp_invoice::order::text_order;
use lnpbp_invoice::{AmountExt, Beneficiary, Details, Invoice, Recurrent};
use std::cmp::Ordering;
use std::collections::BTreeMap;

fn payee(n: u8) -> Beneficiary {
    Beneficiary::BlindUtxo(OutpointHash([n; 32]))
}

#[test]
fn new_invoice_says_no_more_than_it_is_given() {
    let asset = Some(AssetId([4u8; 32]));
    let invoice = Invoice::new(payee(1), Some(10), asset);
    assert_eq!(invoice.version(), &0);
    assert_eq!(invoice.amount(), &AmountExt::Normal(10));
    assert_eq!(invoice.beneficiary(), &payee(1));
    assert!(invoice.alt_beneficiaries().is_empty());
    assert_eq!(invoice.asset(), &asset);
    assert_eq!(invoice.recurrent(), &Recurrent::NonRecurrent);
    assert_eq!(invoice.expiry(), &None);
    assert_eq!(invoice.quantity(), &None);
    assert_eq!(invoice.currency_requirement(), &None);
    assert_eq!(invoice.merchant(), &None);
    assert_eq!(invoice.purpose(), &None);
    assert_eq!(invoice.details(), &None);
    assert_eq!(invoice.signature(), &None);
    assert_eq!(invoice.unknown(), &BTreeMap::new());
    assert_eq!(Invoice::new(payee(1), None, None).amount(), &AmountExt::Any);
}

#[test]
fn native_invoice_names_the_asset_of_the_chain() {
    let asset = |chain: Chain| Invoice::native(payee(1), Some(7), &chain).asset;
    let testnet = asset(Chain::Testnet3).unwrap();
    assert_eq!(&testnet.0[..4], &[0x43u8, 0x49, 0x7f, 0xd7]);
    let signet = asset(Chain::Signet).unwrap();
    assert_eq!(&signet.0[..4], &[0xf6u8, 0x1e, 0xee, 0x3b]);
    let liquid = asset(Chain::LiquidV1).unwrap();
    assert_eq!(&liquid.0[..4], &[0x14u8, 0x66, 0x27, 0x58]);
    assert_eq!(asset(Chain::Regtest([5u8; 32])), Some(AssetId([5u8; 32])));
    assert_eq!(asset(Chain::SignetCustom([6u8; 32])), Some(AssetId([6u8; 32])));
    assert_eq!(asset(Chain::Other([8u8; 32])), Some(AssetId([8u8; 32])));
    assert_eq!(
        Invoice::native(payee(1), Some(7), &Chain::Testnet3),
        Invoice::new(payee(1), Some(7), Some(testnet))
    );
}

#[test]
fn native_invoice_leaves_out_bitcoin() {
    assert_eq!(
        Invoice::native(payee(1), None, &Chain::Mainnet),
        Invoice::new(payee(1), None, None)
    );
    let mainnet = AssetId::native(&Chain::Mainnet);
    assert_eq!(&mainnet.0[..4], &[0x6fu8, 0xe2, 0x8c, 0x0a]);
    assert!(Chain::Regtest(mainnet.0) == Chain::Mainnet);
    assert!(Chain::Testnet3 != Chain::Mainnet);
    assert_eq!(Invoice::native(payee(1), None, &Chain::Other(mainnet.0)).asset, None);
}

#[test]
fn beneficiaries_come_in_their_order() {
    let mut invoice = Invoice::new(payee(1), None, None);
    invoice.alt_beneficiaries = vec![payee(2), Beneficiary::Psbt(Psbt(vec![])), payee(1)];
    let mut iter = invoice.beneficiaries();
    assert_eq!(iter.next(), Some(&payee(1)));
    assert_eq!(iter.next(), Some(&payee(2)));
    let left = iter.clone().collect();
    assert_eq!(left, vec![&invoice.alt_beneficiaries[1], &invoice.alt_beneficiaries[2]]);
    assert_eq!(iter.next(), Some(&Beneficiary::Psbt(Psbt(vec![]))));
    assert_eq!(iter.next(), Some(&payee(1)));
    assert!(iter.clone().collect().is_empty());
    assert_eq!(iter.next(), None);
    assert!(iter.clone().collect().is_empty());
    assert_eq!(iter.next(), None);
    assert!(iter.clone().collect().is_empty());
    assert_eq!(invoice.beneficiaries().collect().len(), 4);
}

#[test]
fn there_is_always_a_beneficiary() {
    let invoice = Invoice::new(payee(9), None, None);
    let mut iter = invoice.beneficiaries();
    assert_eq!(iter.next(), Some(&payee(9)));
    assert_eq!(iter.next(), None);
    assert_eq!(invoice.beneficiaries().collect(), vec![&payee(9)]);
}

#[test]
fn details_are_written() {
    let details = Details { commitment: [0u8; 32], source: "https://example.com/1".to_string() };
    assert_eq!(details.to_string(), "https://example.com/1");
}

#[test]
fn texts_are_ordered() {
    assert_eq!(text_order("", ""), Ordering::Equal);
    assert_eq!(text_order("", "a"), Ordering::Less);
    assert_eq!(text_order("a", ""), Ordering::Greater);
    assert_eq!(text_order("i1qq", "i1qp"), Ordering::Greater);
    assert_eq!(text_order("i1q", "i1qp"), Ordering::Less);
    assert_eq!(text_order("i1qp", "i1qp"), Ordering::Equal);
    assert_eq!(text_order("\u{e9}", "z"), Ordering::Greater);
}

#[test]
fn texts_are_ordered_as_strings() {
    let texts = ["", "a", "ab", "b", "i1", "i1qqq", "i1qqp", "z", "\u{e9}", "\u{10000}", "\u{ffff}"];
    for a in texts {
        for b in texts {
            assert_eq!(text_order(a, b), a.cmp(b));
            assert_eq!(text_order(a, b) == Ordering::Less, text_order(b, a) == Ordering::Greater);
        }
    }
}
