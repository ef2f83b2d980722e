use lnpbp_invoice::{AmountExt, AmountParseError};

#[test]
fn any_amount_is_read() {
    assert_eq!(AmountExt::from_str("any"), Ok(AmountExt::Any));
    assert_eq!(AmountExt::from_str(" AnY\n"), Ok(AmountExt::Any));
    assert_eq!(AmountExt::from_str("\u{3000}ANY\u{a0}\u{2009}"), Ok(AmountExt::Any));
    assert_eq!(AmountExt::from_str("an y"), Err(AmountParseError));
    assert_eq!(AmountExt::from_str("anyone"), Err(AmountParseError));
    assert_eq!(AmountExt::from_str("\u{c5}ny"), Err(AmountParseError));
}

#[test]
fn whole_amount_is_read() {
    assert_eq!(AmountExt::from_str("0"), Ok(AmountExt::Normal(0)));
    assert_eq!(AmountExt::from_str("+0042"), Ok(AmountExt::Normal(42)));
    assert_eq!(AmountExt::from_str("18446744073709551615"), Ok(AmountExt::Normal(u64::MAX)));
    assert_eq!(AmountExt::from_str("18446744073709551616"), Err(AmountParseError));
    assert_eq!(AmountExt::from_str("99999999999999999999999"), Err(AmountParseError));
}

#[test]
fn amount_with_fraction_is_read() {
    assert_eq!(AmountExt::from_str("1.5"), Ok(AmountExt::Milli(1, 5)));
    assert_eq!(AmountExt::from_str("+1.+05"), Ok(AmountExt::Milli(1, 5)));
    assert_eq!(AmountExt::from_str("7.65535"), Ok(AmountExt::Milli(7, 65535)));
    assert_eq!(AmountExt::from_str("7.65536"), Err(AmountParseError));
    assert_eq!(AmountExt::from_str("1.2.3"), Ok(AmountExt::Milli(1, 2)));
    assert_eq!(AmountExt::from_str("1.2."), Ok(AmountExt::Milli(1, 2)));
    assert_eq!(AmountExt::from_str("1.2.x"), Ok(AmountExt::Milli(1, 2)));
}

#[test]
fn other_texts_are_no_amounts() {
    for s in ["", ".", "1.", ".1", "+", "++1", "-1", "-0", " 1", "1 ", "0x1", "1,5", "1..2", "\u{661}"] {
        assert_eq!(AmountExt::from_str(s), Err(AmountParseError), "{}", s);
    }
    assert_eq!(AmountParseError.to_string(), "Incorrect beneficiary format");
}

#[test]
fn normalized_text_decides_on_any_amount() {
    assert_eq!(AmountExt::from_normalized("any", "5"), Ok(AmountExt::Any));
    assert_eq!(AmountExt::from_normalized("5", "6"), Ok(AmountExt::Normal(6)));
    assert_eq!(AmountExt::from_normalized("Any", "Any"), Err(AmountParseError));
}

#[test]
fn amounts_are_written() {
    assert_eq!(AmountExt::Any.to_string(), "any");
    assert_eq!(AmountExt::Normal(0).to_string(), "0");
    assert_eq!(AmountExt::Normal(1002003).to_string(), "1002003");
    assert_eq!(AmountExt::Normal(u64::MAX).to_string(), "18446744073709551615");
    assert_eq!(AmountExt::Milli(10, 7).to_string(), "10.7");
}

#[test]
fn written_amounts_are_read_back() {
    for amount in [
        AmountExt::Any,
        AmountExt::Normal(0),
        AmountExt::Normal(9),
        AmountExt::Normal(10),
        AmountExt::Normal(u64::MAX),
        AmountExt::Milli(0, 0),
        AmountExt::Milli(u64::MAX, u16::MAX),
    ] {
        assert_eq!(AmountExt::from_str(&amount.to_string()), Ok(amount));
    }
}

#[test]
fn different_amounts_are_written_differently() {
    let amounts = [
        AmountExt::Any,
        AmountExt::Normal(10),
        AmountExt::Normal(100),
        AmountExt::Milli(10, 0),
        AmountExt::Milli(1, 0),
    ];
    for a in amounts {
        for b in amounts {
            assert_eq!(a.to_string() == b.to_string(), a == b);
        }
    }
}

#[test]
fn amounts_are_made() {
    assert_eq!(AmountExt::default(), AmountExt::Any);
    assert_eq!(AmountExt::from(3u64), AmountExt::Normal(3));
}
