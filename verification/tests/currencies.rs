use lnpbp_invoice::currency::UnexpectedEnd;
use lnpbp_invoice::{CurrencyData, Iso4217, Iso4217Error};

#[test]
fn codes_are_read() {
    assert_eq!(Iso4217::from_str("USD"), Ok(Iso4217(*b"USD")));
    assert_eq!(Iso4217::from_str("a 1"), Ok(Iso4217(*b"a 1")));
    assert_eq!(Iso4217::from_str("\u{20ac}"), Ok(Iso4217([0xe2, 0x82, 0xac])));
    for s in ["", "EU", "EURO", "\u{e9}\u{e9}"] {
        assert_eq!(Iso4217::from_str(s), Err(Iso4217Error::WrongLen));
    }
    assert_eq!(
        Iso4217Error::WrongLen.to_string(),
        "Wrong string length to parse ISO4217 data"
    );
}

#[test]
fn codes_are_written() {
    assert_eq!(Iso4217(*b"EUR").to_string(), "EUR");
    assert_eq!(Iso4217([0xe9, 0x41, 0xff]).to_string(), "\u{e9}A\u{ff}");
    assert_eq!(Iso4217::from(*b"CHF").to_string(), "CHF");
}

#[test]
fn ascii_codes_are_read_back() {
    for s in ["USD", "   ", "~\u{0}9"] {
        let code = Iso4217::from_str(s).unwrap();
        assert_eq!(code.to_string(), s);
        assert_eq!(Iso4217::from_str(&code.to_string()), Ok(code));
    }
    // Two bytes of one character become two characters.
    let code = Iso4217::from_str("\u{e9}1").unwrap();
    assert_eq!(code.to_string(), "\u{c3}\u{a9}1");
    assert_eq!(Iso4217::from_str(&code.to_string()), Err(Iso4217Error::WrongLen));
    let code = Iso4217([0x41, 0x42, 0x80]);
    assert_eq!(Iso4217::from_str(&code.to_string()), Err(Iso4217Error::WrongLen));
}

#[test]
fn codes_are_encoded() {
    let mut data = vec![7u8];
    assert_eq!(Iso4217(*b"JPY").strict_encode(&mut data), 3);
    assert_eq!(data, vec![7u8, 0x4a, 0x50, 0x59]);
    data.push(1);
    assert_eq!(Iso4217::strict_decode(&data[1..]), Ok(Iso4217(*b"JPY")));
}

#[test]
fn short_data_hold_no_code() {
    assert_eq!(Iso4217::strict_decode(&[]), Err(UnexpectedEnd));
    assert_eq!(Iso4217::strict_decode(b"JP"), Err(UnexpectedEnd));
}

#[test]
fn prices_are_written() {
    let price = CurrencyData {
        iso4217: Iso4217(*b"USD"),
        coins: 30,
        fractions: 5,
        price_provider: "https://example.com".to_string(),
    };
    assert_eq!(price.to_string(), "30.5 USD");
}
