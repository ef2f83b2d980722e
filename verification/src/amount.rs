//! Amounts of an asset.
use vstd::prelude::*;
use vstd::utf8::is_ascii_chars;

use crate::text::{
    all_digits, ascii_lower, chars_of, decimal, is_digit, is_white_space, law_lowered,
    law_trimmed, law_unsigned_digits, law_white_space_is_trimmed, lemma_decimal,
    lemma_decimal_unsigned, lowered, number, parse_unsigned, push_decimal, trimmed, trimmed_end,
    trimmed_start, unsigned,
};

verus! {

/// Amount that is to be paid.
#[derive(Copy, Clone, PartialOrd, Ord, PartialEq, Eq, Hash, Debug, Structural)]
pub enum AmountExt {
    /// Payments for any amount is accepted: useful for charity/donations, etc
    Any,
    /// Whole units.
    Normal(u64),
    /// Whole units and a fraction.
    Milli(u64, u16),
}

/// The text is no amount.
#[derive(Copy, Clone, PartialOrd, Ord, PartialEq, Eq, Debug, Structural)]
pub struct AmountParseError;

impl AmountParseError {
    /// Writes the message of the error.
    pub fn to_string(&self) -> (r: String)
        ensures
            r@ == "Incorrect beneficiary format"@,
    {
        "Incorrect beneficiary format".to_owned()
    }
}

/// The index of the first dot at the index or behind it; the length of the text
/// where there is none.
pub open spec fn dot_from(s: Seq<char>, i: int) -> int
    decreases s.len() - i,
{
    if i >= s.len() || s[i] == '.' {
        i
    } else {
        dot_from(s, i + 1)
    }
}

/// The amount that a text of digits and dots stands for. The text is a number
/// where it has no dot. Otherwise the number before the first dot counts the
/// whole units, and that between the first dot and the second, or the end, is
/// the fraction; what follows a second dot is ignored.
pub open spec fn numeric_amount(s: Seq<char>) -> Result<AmountExt, AmountParseError> {
    let i = dot_from(s, 0);
    if i >= s.len() {
        match unsigned(s, u64::MAX as nat) {
            Some(n) => Ok(AmountExt::Normal(n as u64)),
            None => Err(AmountParseError),
        }
    } else {
        let whole = unsigned(s.subrange(0, i), u64::MAX as nat);
        let frac = unsigned(s.subrange(i + 1, dot_from(s, i + 1)), u16::MAX as nat);
        if whole is Some && frac is Some {
            Ok(AmountExt::Milli(whole->0 as u64, frac->0 as u16))
        } else {
            Err(AmountParseError)
        }
    }
}

/// The amount that a text stands for, given its lower-case form without the
/// white space around it.
pub open spec fn amount_with(normalized: Seq<char>, s: Seq<char>) -> Result<
    AmountExt,
    AmountParseError,
> {
    if normalized == "any"@ {
        Ok(AmountExt::Any)
    } else {
        numeric_amount(s)
    }
}

/// The amount that a text stands for: any amount for the word "any", in upper
/// or lower case and with white space around it, and a number otherwise.
pub open spec fn amount_of(s: Seq<char>) -> Result<AmountExt, AmountParseError> {
    amount_with(lowered(trimmed(s)), s)
}

impl AmountExt {
    /// The text of an amount.
    pub open spec fn text(self) -> Seq<char> {
        match self {
            AmountExt::Any => "any"@,
            AmountExt::Normal(n) => decimal(n as nat),
            AmountExt::Milli(whole, frac) => decimal(whole as nat) + seq!['.'] + decimal(frac as nat),
        }
    }

    /// Reads an amount, given the lower-case form of the text without the white
    /// space around it.
    pub fn from_normalized(normalized: &str, s: &str) -> (r: Result<AmountExt, AmountParseError>)
        ensures
            r == amount_with(normalized@, s@),
            r == Ok::<AmountExt, AmountParseError>(AmountExt::Any) <==> normalized@ == "any"@,
            r matches Ok(AmountExt::Normal(_)) ==> !s@.contains('.'),
            normalized@ != "any"@ && !s@.contains('.') ==> match unsigned(s@, u64::MAX as nat) {
                Some(n) => r == Ok::<AmountExt, AmountParseError>(AmountExt::Normal(n as u64)),
                None => r is Err,
            },
    {
        if normalized.to_owned() == "any".to_owned() {
            return Ok(AmountExt::Any);
        }
        proof {
            lemma_no_dot(s@);
        }
        let chars = chars_of(s);
        let i: usize = find_dot(&chars, 0);
        if i == chars.len() {
            assert(s@.subrange(0, i as int) == s@);
            match parse_unsigned(&chars, 0, i, u64::MAX) {
                Some(n) => Ok(AmountExt::Normal(n)),
                None => Err(AmountParseError),
            }
        } else {
            let j: usize = find_dot(&chars, i + 1);
            let whole: u64 = match parse_unsigned(&chars, 0, i, u64::MAX) {
                Some(n) => n,
                None => return Err(AmountParseError),
            };
            let frac: u64 = match parse_unsigned(&chars, i + 1, j, u16::MAX as u64) {
                Some(n) => n,
                None => return Err(AmountParseError),
            };
            Ok(AmountExt::Milli(whole, frac as u16))
        }
    }

    /// Reads an amount.
    pub fn from_str(s: &str) -> (r: Result<AmountExt, AmountParseError>)
        ensures
            r == amount_of(s@),
            r == Ok::<AmountExt, AmountParseError>(AmountExt::Any) <==> lowered(trimmed(s@))
                == "any"@,
            r matches Ok(AmountExt::Normal(_)) ==> !s@.contains('.'),
            lowered(trimmed(s@)) != "any"@ && !s@.contains('.') ==> match unsigned(s@, u64::MAX as nat) {
                Some(n) => r == Ok::<AmountExt, AmountParseError>(AmountExt::Normal(n as u64)),
                None => r is Err,
            },
    {
        AmountExt::from_normalized(s.trim().to_lowercase().as_str(), s)
    }

    /// Writes the amount: "any", the number of units, or the units, a dot and
    /// the fraction.
    pub fn to_string(&self) -> (r: String)
        ensures
            r@ == self.text(),
            match *self {
                AmountExt::Any => r@ == "any"@,
                AmountExt::Normal(n) => r@ == decimal(n as nat),
                AmountExt::Milli(whole, frac) => r@ == decimal(whole as nat) + seq!['.']
                    + decimal(frac as nat),
            },
    {
        let mut r = String::new();
        match *self {
            AmountExt::Any => r = "any".to_owned(),
            AmountExt::Normal(n) => push_decimal(&mut r, n),
            AmountExt::Milli(whole, frac) => {
                push_decimal(&mut r, whole);
                r.push('.');
                push_decimal(&mut r, frac as u64);
            },
        }
        r
    }
}

/// Where no dot is found there is none.
proof fn lemma_no_dot(s: Seq<char>)
    ensures
        s.contains('.') <==> dot_from(s, 0) < s.len(),
{
    lemma_dot_found(s, 0);
    if dot_from(s, 0) < s.len() {
        assert(s.contains(s[dot_from(s, 0)]));
    }
}

/// No dot stands before the first one.
proof fn lemma_dot_found(s: Seq<char>, i: int)
    requires
        0 <= i <= s.len(),
    ensures
        i <= dot_from(s, i) <= s.len(),
        dot_from(s, i) < s.len() ==> s[dot_from(s, i)] == '.',
        forall|k: int| i <= k < dot_from(s, i) ==> #[trigger] s[k] != '.',
    decreases s.len() - i,
{
    if i < s.len() && s[i] != '.' {
        lemma_dot_found(s, i + 1);
    }
}

/// Finds the first dot at the index or behind it.
fn find_dot(s: &Vec<char>, from: usize) -> (r: usize)
    requires
        from <= s@.len(),
    ensures
        from <= r <= s@.len(),
        r == dot_from(s@, from as int),
{
    let mut i: usize = from;
    while i < s.len() && s[i] != '.'
        invariant
            from <= i <= s@.len(),
            dot_from(s@, from as int) == dot_from(s@, i as int),
        decreases s@.len() - i,
    {
        i = i + 1;
    }
    i
}

impl Default for AmountExt {
    fn default() -> (r: AmountExt)
        ensures
            r == AmountExt::Any,
    {
        AmountExt::Any
    }
}

impl vstd::std_specs::convert::FromSpecImpl<u64> for AmountExt {
    open spec fn obeys_from_spec() -> bool {
        true
    }

    open spec fn from_spec(value: u64) -> AmountExt {
        AmountExt::Normal(value)
    }
}

impl From<u64> for AmountExt {
    fn from(value: u64) -> (r: AmountExt)
        ensures
            r == AmountExt::Normal(value),
    {
        AmountExt::Normal(value)
    }
}

/// The first dot is where no dot stands before.
proof fn lemma_dot_from(s: Seq<char>, i: int, k: int)
    requires
        0 <= i <= k <= s.len(),
        k < s.len() ==> s[k] == '.',
        forall|j: int| i <= j < k ==> s[j] != '.',
    ensures
        dot_from(s, i) == k,
    decreases k - i,
{
    if i < k {
        lemma_dot_from(s, i + 1, k);
    }
}

/// A text that starts and ends with a digit is no word, with or without white
/// space around it.
proof fn lemma_not_any(s: Seq<char>)
    requires
        s.len() > 0,
        is_digit(s.first()),
        is_digit(s.last()),
        is_ascii_chars(s),
    ensures
        lowered(trimmed(s)) != "any"@,
{
    reveal_strlit("any");
    assert(trimmed_start(s) == s);
    assert(trimmed_end(s) == s);
    assert(lowered(s)[0] == ascii_lower(s[0]));
    assert("any"@[0] == 'a');
}

/// What an amount is written as is read back as that amount.
pub proof fn law_amount_round_trip(amount: AmountExt)
    ensures
        amount_of(amount.text()) == Ok::<AmountExt, AmountParseError>(amount),
{
    let s = amount.text();
    match amount {
        AmountExt::Any => {
            reveal_strlit("any");
            assert(trimmed_start(s) == s);
            assert(trimmed_end(s) == s);
            assert(lowered(s) =~= s);
        },
        AmountExt::Normal(n) => {
            lemma_decimal(n as nat);
            assert(is_digit(s[0]));
            assert(is_digit(s[s.len() - 1]));
            assert forall|i: int| 0 <= i < s.len() implies (s[i] as nat) < 128 && s[i] != '.' by {
                assert(is_digit(s[i]));
            }
            lemma_not_any(s);
            lemma_dot_from(s, 0, s.len() as int);
            lemma_decimal_unsigned(n as nat, u64::MAX as nat);
        },
        AmountExt::Milli(whole, frac) => {
            let a = decimal(whole as nat);
            let b = decimal(frac as nat);
            let k = a.len() as int;
            lemma_decimal(whole as nat);
            lemma_decimal(frac as nat);
            assert(s[0] == a[0]);
            assert(s[s.len() - 1] == b[b.len() - 1]);
            assert forall|i: int| 0 <= i < s.len() implies (s[i] as nat) < 128 && (i != k ==> s[i]
                != '.') by {
                if i < k {
                    assert(is_digit(a[i]));
                } else if i > k {
                    assert(s[i] == b[i - k - 1]);
                    assert(is_digit(b[i - k - 1]));
                }
            }
            lemma_not_any(s);
            lemma_dot_from(s, 0, k);
            lemma_dot_from(s, k + 1, s.len() as int);
            assert(s.subrange(0, k) == a);
            assert(s.subrange(k + 1, s.len() as int) == b);
            lemma_decimal_unsigned(whole as nat, u64::MAX as nat);
            lemma_decimal_unsigned(frac as nat, u16::MAX as nat);
        },
    }
}

/// Different amounts are written differently.
pub proof fn law_amount_texts_differ(a: AmountExt, b: AmountExt)
    requires
        a != b,
    ensures
        a.text() != b.text(),
{
    law_amount_round_trip(a);
    law_amount_round_trip(b);
}

/// A text of digits is read as a whole amount, with and without a plus sign
/// before them, and refused where the number takes more than 64 bits.
pub proof fn law_whole_amount(s: Seq<char>)
    requires
        s.len() > 0,
        forall|i: int| 0 <= i < s.len() ==> 48 <= #[trigger] s[i] as int <= 57,
    ensures
        number(s) <= u64::MAX ==> amount_of(s) == Ok::<AmountExt, AmountParseError>(
            AmountExt::Normal(number(s) as u64),
        ),
        number(s) <= u64::MAX ==> amount_of(seq!['+'] + s) == Ok::<AmountExt, AmountParseError>(
            AmountExt::Normal(number(s) as u64),
        ),
        number(s) > u64::MAX ==> amount_of(s) is Err && amount_of(seq!['+'] + s) is Err,
{
    let t = seq!['+'] + s;
    assert(48 <= s[0] as int <= 57);
    assert(48 <= s[s.len() - 1] as int <= 57);
    assert forall|i: int| 0 <= i < t.len() implies (t[i] as nat) < 128 && t[i] != '.' by {
        if i > 0 {
            assert(t[i] == s[i - 1]);
        }
    }
    law_unsigned_digits(s, u64::MAX as nat);
    lemma_not_any(s);
    lemma_dot_from(s, 0, s.len() as int);
    lemma_not_any_sign(t);
    lemma_dot_from(t, 0, t.len() as int);
}

/// A text with a plus sign in front and a digit at the end is no word.
proof fn lemma_not_any_sign(s: Seq<char>)
    requires
        s.len() > 0,
        s.first() == '+',
        is_digit(s.last()),
        is_ascii_chars(s),
    ensures
        lowered(trimmed(s)) != "any"@,
{
    reveal_strlit("any");
    assert(trimmed_start(s) == s);
    assert(trimmed_end(s) == s);
    assert(lowered(s)[0] == ascii_lower(s[0]));
    assert("any"@[0] == 'a');
}

/// A text of digits, a dot and digits is read as an amount whose whole units are
/// the number before the dot and whose fraction is that behind it; it is refused
/// where these numbers take more than 64 and 16 bits.
pub proof fn law_amount_with_fraction(a: Seq<char>, b: Seq<char>)
    requires
        a.len() > 0,
        b.len() > 0,
        forall|i: int| 0 <= i < a.len() ==> 48 <= #[trigger] a[i] as int <= 57,
        forall|i: int| 0 <= i < b.len() ==> 48 <= #[trigger] b[i] as int <= 57,
    ensures
        number(a) <= u64::MAX && number(b) <= u16::MAX ==> amount_of(a + seq!['.'] + b) == Ok::<
            AmountExt,
            AmountParseError,
        >(AmountExt::Milli(number(a) as u64, number(b) as u16)),
        number(a) > u64::MAX || number(b) > u16::MAX ==> amount_of(a + seq!['.'] + b) is Err,
{
    let s = a + seq!['.'] + b;
    let k = a.len() as int;
    assert(s[0] == a[0]);
    assert(s[s.len() - 1] == b[b.len() - 1]);
    assert forall|i: int| 0 <= i < s.len() implies (s[i] as nat) < 128 && (i != k ==> s[i] != '.') by {
        if i < k {
            assert(s[i] == a[i]);
        } else if i > k {
            assert(s[i] == b[i - k - 1]);
        }
    }
    lemma_not_any(s);
    lemma_dot_from(s, 0, k);
    lemma_dot_from(s, k + 1, s.len() as int);
    assert(s.subrange(0, k) =~= a);
    assert(s.subrange(k + 1, s.len() as int) =~= b);
    law_unsigned_digits(a, u64::MAX as nat);
    law_unsigned_digits(b, u16::MAX as nat);
}

/// What stands before the first dot of a text that is no word counts the whole
/// units and what stands behind it, up to the next dot or the end, is the
/// fraction; what follows another dot makes no difference.
pub proof fn law_amount_parts(
    normalized: Seq<char>,
    a: Seq<char>,
    b: Seq<char>,
    rest: Seq<char>,
    w: u64,
    f: u16,
)
    requires
        normalized != "any"@,
        !a.contains('.'),
        !b.contains('.'),
    ensures
        amount_with(normalized, a + seq!['.'] + b + seq!['.'] + rest) == amount_with(
            normalized,
            a + seq!['.'] + b,
        ),
        amount_with(normalized, a + seq!['.'] + b) == Ok::<AmountExt, AmountParseError>(
            AmountExt::Milli(w, f),
        ) <==> unsigned(a, u64::MAX as nat) == Some(w as nat) && unsigned(b, u16::MAX as nat)
            == Some(f as nat),
        unsigned(a, u64::MAX as nat) is None || unsigned(b, u16::MAX as nat) is None
            ==> amount_with(normalized, a + seq!['.'] + b) is Err,
{
    let s = a + seq!['.'] + b;
    let t = s + seq!['.'] + rest;
    let k = a.len() as int;
    let l = s.len() as int;
    assert forall|i: int| 0 <= i < l && i != k implies s[i] != '.' && t[i] == s[i] by {
        if i < k {
            assert(a.contains(a[i]));
        } else {
            assert(b.contains(b[i - k - 1]));
        }
    }
    lemma_dot_from(s, 0, k);
    lemma_dot_from(s, k + 1, l);
    lemma_dot_from(t, 0, k);
    lemma_dot_from(t, k + 1, l);
    assert(s.subrange(0, k) =~= a);
    assert(s.subrange(k + 1, l) =~= b);
    assert(t.subrange(0, k) =~= a);
    assert(t.subrange(k + 1, l) =~= b);
}

/// The word "any", each letter in upper or lower case and with white space
/// around it, is read as any amount.
pub proof fn law_any_amount(before: Seq<char>, word: Seq<char>, after: Seq<char>)
    requires
        forall|k: int| 0 <= k < before.len() ==> is_white_space(#[trigger] before[k]),
        forall|k: int| 0 <= k < after.len() ==> is_white_space(#[trigger] after[k]),
        word.len() == 3,
        word[0] == 'a' || word[0] == 'A',
        word[1] == 'n' || word[1] == 'N',
        word[2] == 'y' || word[2] == 'Y',
    ensures
        amount_of(before + word + after) == Ok::<AmountExt, AmountParseError>(AmountExt::Any),
{
    reveal_strlit("any");
    law_white_space_is_trimmed(before, word, after);
    assert(lowered(word) =~= "any"@);
}

/// An ASCII text that is read as any amount is the word "any", each letter in
/// upper or lower case, with white space around it.
pub proof fn law_any_amount_only(s: Seq<char>) -> (i: int)
    requires
        is_ascii_chars(s),
        amount_of(s) == Ok::<AmountExt, AmountParseError>(AmountExt::Any),
    ensures
        0 <= i <= s.len() - 3,
        s[i] == 'a' || s[i] == 'A',
        s[i + 1] == 'n' || s[i + 1] == 'N',
        s[i + 2] == 'y' || s[i + 2] == 'Y',
        forall|k: int| 0 <= k < i || i + 3 <= k < s.len() ==> is_white_space(#[trigger] s[k]),
{
    reveal_strlit("any");
    let (i, j) = law_trimmed(s);
    let t = trimmed(s);
    assert(is_ascii_chars(t)) by {
        assert forall|k: int| 0 <= k < t.len() implies (t[k] as nat) < 128 by {
            assert(t[k] == s[i + k]);
        }
    }
    assert(lowered(t) == "any"@);
    law_lowered(t, 0);
    law_lowered(t, 1);
    law_lowered(t, 2);
    assert(t[0] == s[i] && t[1] == s[i + 1] && t[2] == s[i + 2]);
    i
}

/// An amount is written as the word "any", as the decimal notation of the units,
/// or as those of the units and of the fraction with a dot between them.
pub proof fn law_amount_text(n: u64, f: u16)
    ensures
        AmountExt::Any.text() == seq!['a', 'n', 'y'],
        AmountExt::Normal(n).text() == decimal(n as nat),
        AmountExt::Milli(n, f).text() == decimal(n as nat) + seq!['.'] + decimal(f as nat),
{
    reveal_strlit("any");
    assert("any"@ =~= seq!['a', 'n', 'y']);
}

/// A number alone is a whole amount.
pub proof fn law_amount_from(value: u64)
    ensures
        <AmountExt as vstd::std_specs::convert::FromSpec<u64>>::from_spec(value)
            == AmountExt::Normal(value),
{
}

/// A text with a dot, unless it is the word for any amount, is read as the units
/// before its first dot and the fraction behind it, up to another dot or the end,
/// and refused where one of them is no number that fits.
pub proof fn law_dotted_amount(
    a: Seq<char>,
    b: Seq<char>,
    tail: Seq<char>,
    w: u64,
    f: u16,
)
    requires
        !a.contains('.'),
        !b.contains('.'),
        tail.len() > 0 ==> tail[0] == '.',
        lowered(trimmed(a + seq!['.'] + b + tail)) != "any"@,
    ensures
        amount_of(a + seq!['.'] + b + tail) == Ok::<AmountExt, AmountParseError>(
            AmountExt::Milli(w, f),
        ) <==> unsigned(a, u64::MAX as nat) == Some(w as nat) && unsigned(b, u16::MAX as nat)
            == Some(f as nat),
        unsigned(a, u64::MAX as nat) is None || unsigned(b, u16::MAX as nat) is None
            ==> amount_of(a + seq!['.'] + b + tail) is Err,
{
    let s = a + seq!['.'] + b + tail;
    let normalized = lowered(trimmed(s));
    if tail.len() == 0 {
        assert(s =~= a + seq!['.'] + b);
        law_amount_parts(normalized, a, b, tail, w, f);
    } else {
        let rest = tail.skip(1);
        assert(s =~= a + seq!['.'] + b + seq!['.'] + rest);
        law_amount_parts(normalized, a, b, rest, w, f);
    }
}

} // verus!
