//! Currencies and prices in them.
use vstd::prelude::*;
use vstd::utf8::{encode_scalar, encode_utf8, is_ascii_chars, is_ascii_chars_encode_utf8};

use crate::text::{decimal, lemma_decimal, lemma_decimal_prefix, push_decimal};

verus! {

/// Currency code of three bytes.
#[derive(Clone, PartialOrd, Ord, PartialEq, Eq, Hash, Debug)]
pub struct Iso4217(pub [u8; 3]);

/// Reasons why a text is no currency code.
#[derive(Copy, Clone, PartialOrd, Ord, PartialEq, Eq, Hash, Debug, Structural)]
pub enum Iso4217Error {
    /// Wrong string length to parse ISO4217 data
    WrongLen,
}

impl Iso4217Error {
    /// Writes the message of the error.
    pub fn to_string(&self) -> (r: String)
        ensures
            r@ == "Wrong string length to parse ISO4217 data"@,
    {
        "Wrong string length to parse ISO4217 data".to_owned()
    }
}

/// The data end before the value does.
#[derive(Copy, Clone, PartialOrd, Ord, PartialEq, Eq, Hash, Debug, Structural)]
pub struct UnexpectedEnd;

impl View for Iso4217 {
    type V = Seq<u8>;

    open spec fn view(&self) -> Seq<u8> {
        self.0@
    }
}

/// The text of a code: for each byte the character with that code point.
pub open spec fn code_text(code: Seq<u8>) -> Seq<char> {
    code.map_values(|b: u8| b as char)
}

/// The code that a text stands for: its bytes in UTF-8, which must be three.
pub open spec fn code_of(s: Seq<char>) -> Result<Seq<u8>, Iso4217Error> {
    if encode_utf8(s).len() == 3 {
        Ok(encode_utf8(s))
    } else {
        Err(Iso4217Error::WrongLen)
    }
}

/// The code that data start with.
pub open spec fn decoded_code(d: Seq<u8>) -> Result<Seq<u8>, UnexpectedEnd> {
    if d.len() >= 3 {
        Ok(d.take(3))
    } else {
        Err(UnexpectedEnd)
    }
}

impl Iso4217 {
    /// Reads a code, which is any text of three bytes in UTF-8.
    pub fn from_str(s: &str) -> (r: Result<Iso4217, Iso4217Error>)
        ensures
            match r {
                Ok(code) => code_of(s@) == Ok::<Seq<u8>, Iso4217Error>(code@),
                Err(error) => code_of(s@) == Err::<Seq<u8>, Iso4217Error>(error),
            },
            r is Ok <==> encode_utf8(s@).len() == 3,
            r is Ok ==> r->Ok_0.0@ == encode_utf8(s@),
    {
        let bytes = s.as_bytes();
        if bytes.len() != 3 {
            return Err(Iso4217Error::WrongLen);
        }
        let code = Iso4217([bytes[0], bytes[1], bytes[2]]);
        assert(code@ =~= bytes@);
        Ok(code)
    }

    /// Writes the code, a character for each byte.
    pub fn to_string(&self) -> (r: String)
        ensures
            r@ == code_text(self@),
            r@ == seq![self.0[0] as char, self.0[1] as char, self.0[2] as char],
    {
        let mut r = String::new();
        r.push(self.0[0] as char);
        r.push(self.0[1] as char);
        r.push(self.0[2] as char);
        assert(r@ =~= code_text(self@));
        r
    }

    /// Appends the three bytes of the code to the data and returns their number.
    pub fn strict_encode(&self, e: &mut Vec<u8>) -> (r: usize)
        ensures
            r == 3,
            final(e)@ == old(e)@ + self@,
            final(e)@ == old(e)@ + self.0@,
    {
        e.push(self.0[0]);
        e.push(self.0[1]);
        e.push(self.0[2]);
        assert(e@ =~= old(e)@ + self@);
        3
    }

    /// Reads the code that the data start with.
    pub fn strict_decode(d: &[u8]) -> (r: Result<Iso4217, UnexpectedEnd>)
        ensures
            match r {
                Ok(code) => decoded_code(d@) == Ok::<Seq<u8>, UnexpectedEnd>(code@),
                Err(error) => decoded_code(d@) == Err::<Seq<u8>, UnexpectedEnd>(error),
            },
            r is Ok <==> d@.len() >= 3,
            r is Ok ==> r->Ok_0.0@ == d@.take(3),
    {
        if d.len() < 3 {
            return Err(UnexpectedEnd);
        }
        let code = Iso4217([d[0], d[1], d[2]]);
        assert(code@ =~= d@.take(3));
        Ok(code)
    }
}

impl vstd::std_specs::convert::FromSpecImpl<[u8; 3]> for Iso4217 {
    open spec fn obeys_from_spec() -> bool {
        true
    }

    open spec fn from_spec(code: [u8; 3]) -> Iso4217 {
        Iso4217(code)
    }
}

impl From<[u8; 3]> for Iso4217 {
    fn from(code: [u8; 3]) -> (r: Iso4217)
        ensures
            r == Iso4217(code),
    {
        Iso4217(code)
    }
}

/// What a code of ASCII bytes is written as is read back as that code.
pub proof fn law_code_round_trip(code: Seq<u8>)
    requires
        code.len() == 3,
        forall|i: int| 0 <= i < 3 ==> code[i] < 128,
    ensures
        code_of(code_text(code)) == Ok::<Seq<u8>, Iso4217Error>(code),
{
    let text = code_text(code);
    assert(is_ascii_chars(text));
    is_ascii_chars_encode_utf8(text);
    assert(encode_utf8(text) =~= code);
}

/// What a code with a byte beyond ASCII is written as is no code: it takes more
/// than three bytes.
pub proof fn law_code_not_read_back(code: Seq<u8>, i: int)
    requires
        code.len() == 3,
        0 <= i < 3,
        code[i] >= 128,
    ensures
        code_of(code_text(code)) == Err::<Seq<u8>, Iso4217Error>(Iso4217Error::WrongLen),
{
    let text = code_text(code);
    reveal_with_fuel(encode_utf8, 4);
    assert(text.drop_first().drop_first().drop_first().len() == 0);
    assert(encode_utf8(text).len() == encode_scalar(text[0] as u32).len() + encode_scalar(
        text[1] as u32,
    ).len() + encode_scalar(text[2] as u32).len());
    assert(encode_scalar(text[i] as u32).len() >= 2);
}

/// An ASCII text that is read as a code is what the code is written as.
pub proof fn law_ascii_code_text(s: Seq<char>)
    requires
        s.len() == 3,
        is_ascii_chars(s),
    ensures
        code_of(s) is Ok,
        code_text(code_of(s)->Ok_0) == s,
{
    is_ascii_chars_encode_utf8(s);
    assert(code_text(encode_utf8(s)) =~= s);
}

/// The code that was appended to data is read back from where it starts,
/// whatever follows it.
pub proof fn law_code_encoding_round_trip(data: Seq<u8>, code: Seq<u8>, rest: Seq<u8>)
    requires
        code.len() == 3,
    ensures
        decoded_code(((data + code) + rest).skip(data.len() as int)) == Ok::<
            Seq<u8>,
            UnexpectedEnd,
        >(code),
{
    assert(((data + code) + rest).skip(data.len() as int).take(3) =~= code);
}

/// Price in a currency, with the service that it comes from.
#[derive(Clone, PartialOrd, Ord, PartialEq, Eq, Hash, Debug)]
pub struct CurrencyData {
    pub iso4217: Iso4217,
    pub coins: u32,
    pub fractions: u8,
    /// URL
    pub price_provider: String,
}

impl CurrencyData {
    /// The text of a price.
    pub open spec fn text(&self) -> Seq<char> {
        decimal(self.coins as nat) + seq!['.'] + decimal(self.fractions as nat) + seq![' ']
            + code_text(self.iso4217@)
    }

    /// Writes the coins, a dot, the fractions and the currency.
    pub fn to_string(&self) -> (r: String)
        ensures
            r@ == self.text(),
            r@ == decimal(self.coins as nat) + seq!['.'] + decimal(self.fractions as nat) + seq![
                ' ',
                self.iso4217.0[0] as char,
                self.iso4217.0[1] as char,
                self.iso4217.0[2] as char,
            ],
    {
        let mut r = String::new();
        push_decimal(&mut r, self.coins as u64);
        r.push('.');
        push_decimal(&mut r, self.fractions as u64);
        r.push(' ');
        r.append(self.iso4217.to_string().as_str());
        assert(r@ =~= decimal(self.coins as nat) + seq!['.'] + decimal(self.fractions as nat)
            + seq![
            ' ',
            self.iso4217.0[0] as char,
            self.iso4217.0[1] as char,
            self.iso4217.0[2] as char,
        ]);
        r
    }
}

/// A code is written with one character for each of its bytes, which has that
/// byte as its code point.
pub proof fn law_code_text(code: Iso4217, i: int)
    requires
        0 <= i < 3,
    ensures
        code_text(code.0@).len() == 3,
        code_text(code.0@)[i] as int == code.0[i] as int,
        code@ == code.0@,
        <Iso4217 as vstd::std_specs::convert::FromSpec<[u8; 3]>>::from_spec(code.0) == code,
{
}

/// Different codes are written differently.
pub proof fn law_code_texts_differ(a: Iso4217, b: Iso4217)
    requires
        a.0@ != b.0@,
    ensures
        code_text(a.0@) != code_text(b.0@),
{
    if code_text(a.0@) == code_text(b.0@) {
        assert forall|i: int| 0 <= i < 3 implies a.0@[i] == b.0@[i] by {
            law_code_text(a, i);
            law_code_text(b, i);
        }
        assert(a.0@ =~= b.0@);
    }
}

/// The text of a price ends with a blank and the three characters of its own
/// currency, and starts with the coins, a dot and the fractions.
pub proof fn law_price_text(price: CurrencyData)
    ensures
        ({
            let s = price.text();
            let n = s.len() - 4;
            let coins = decimal(price.coins as nat);
            &&& n >= 3
            &&& s[n] == ' '
            &&& s[n + 1] as int == price.iso4217.0[0] as int
            &&& s[n + 2] as int == price.iso4217.0[1] as int
            &&& s[n + 3] as int == price.iso4217.0[2] as int
            &&& s.take(coins.len() as int) == coins
            &&& s[coins.len() as int] == '.'
            &&& s.subrange(coins.len() as int + 1, n) == decimal(price.fractions as nat)
        }),
{
    let s = price.text();
    let n = s.len() - 4;
    let coins = decimal(price.coins as nat);
    lemma_decimal(price.coins as nat);
    lemma_decimal(price.fractions as nat);
    assert(s.take(coins.len() as int) =~= coins);
    assert(s.subrange(coins.len() as int + 1, n) =~= decimal(price.fractions as nat));
}

/// Prices that differ in the coins, the fractions or the currency are written
/// differently.
pub proof fn law_price_texts_differ(a: CurrencyData, b: CurrencyData)
    requires
        a.coins != b.coins || a.fractions != b.fractions || a.iso4217.0@ != b.iso4217.0@,
    ensures
        a.text() != b.text(),
{
    if a.text() == b.text() {
        let u = seq![' '] + code_text(a.iso4217@);
        let v = seq![' '] + code_text(b.iso4217@);
        let x = seq!['.'] + decimal(a.fractions as nat) + u;
        let y = seq!['.'] + decimal(b.fractions as nat) + v;
        assert(a.text() =~= decimal(a.coins as nat) + x);
        assert(b.text() =~= decimal(b.coins as nat) + y);
        lemma_decimal_prefix(a.coins as nat, x, b.coins as nat, y);
        assert(x.skip(1) =~= decimal(a.fractions as nat) + u);
        assert(y.skip(1) =~= decimal(b.fractions as nat) + v);
        lemma_decimal_prefix(a.fractions as nat, u, b.fractions as nat, v);
        assert(u.skip(1) =~= code_text(a.iso4217@));
        assert(v.skip(1) =~= code_text(b.iso4217@));
        law_code_text(a.iso4217, 0);
        law_code_text(b.iso4217, 0);
        law_code_texts_differ(a.iso4217, b.iso4217);
    }
}

} // verus!
