//! Strings as sequences of characters; decimal and hexadecimal numbers.
use vstd::prelude::*;
use vstd::utf8::is_ascii_chars;

verus! {

/// `String::push` of std: appends one character to the string.
pub assume_specification[ String::push ](string: &mut String, ch: char)
    ensures
        final(string)@ == old(string)@.push(ch),
;

/// The characters of a string, in order.
pub fn chars_of(s: &str) -> (r: Vec<char>)
    ensures
        r@ == s@,
{
    let mut r: Vec<char> = Vec::new();
    for c in it: s.chars()
        invariant
            r@ == it.seq().take(it.index()),
            it.seq() == s@,
    {
        r.push(c);
    }
    r
}

/// Whether a character has the Unicode property `White_Space`.
pub open spec fn is_white_space(c: char) -> bool {
    ||| '\u{9}' <= c <= '\u{d}'
    ||| c == ' '
    ||| c == '\u{85}'
    ||| c == '\u{a0}'
    ||| c == '\u{1680}'
    ||| '\u{2000}' <= c <= '\u{200a}'
    ||| c == '\u{2028}'
    ||| c == '\u{2029}'
    ||| c == '\u{202f}'
    ||| c == '\u{205f}'
    ||| c == '\u{3000}'
}

/// A string without its leading white space.
pub open spec fn trimmed_start(s: Seq<char>) -> Seq<char>
    decreases s.len(),
{
    if s.len() > 0 && is_white_space(s.first()) {
        trimmed_start(s.drop_first())
    } else {
        s
    }
}

/// A string without its trailing white space.
pub open spec fn trimmed_end(s: Seq<char>) -> Seq<char>
    decreases s.len(),
{
    if s.len() > 0 && is_white_space(s.last()) {
        trimmed_end(s.drop_last())
    } else {
        s
    }
}

/// A string without leading and trailing white space.
pub open spec fn trimmed(s: Seq<char>) -> Seq<char> {
    trimmed_end(trimmed_start(s))
}

/// `str::trim` of std: the string without leading and trailing white space, as
/// the Unicode property `White_Space` defines it.
pub assume_specification[ str::trim ](s: &str) -> (r: &str)
    ensures
        r@ == trimmed(s@),
;

/// The lower-case form of an ASCII character.
pub open spec fn ascii_lower(c: char) -> char {
    if 'A' <= c <= 'Z' {
        (c as nat + 32) as char
    } else {
        c
    }
}

/// What `str::to_lowercase` of std returns.
pub uninterp spec fn unicode_lowercase(s: Seq<char>) -> Seq<char>;

/// A string in lower case: letter by letter where all of it is ASCII.
pub open spec fn lowered(s: Seq<char>) -> Seq<char> {
    if is_ascii_chars(s) {
        s.map_values(|c: char| ascii_lower(c))
    } else {
        unicode_lowercase(s)
    }
}

/// `str::to_lowercase` of std: an ASCII string has its letters from A to Z
/// replaced by those from a to z; of other strings no more is said than that
/// the result depends on the string alone.
pub assume_specification[ str::to_lowercase ](s: &str) -> (r: String)
    ensures
        r@ == (if is_ascii_chars(s@) {
            lowered(s@)
        } else {
            unicode_lowercase(s@)
        }),
;

/// Whether a character is an ASCII decimal digit.
pub open spec fn is_digit(c: char) -> bool {
    '0' <= c <= '9'
}

/// The value of a decimal digit.
pub open spec fn digit_value(c: char) -> nat {
    (c as nat - '0' as nat) as nat
}

/// The decimal digit of a value below ten.
pub open spec fn digit_char(d: nat) -> char {
    ('0' as nat + d) as char
}

/// The decimal notation of a number, without leading zeros.
pub open spec fn decimal(n: nat) -> Seq<char>
    decreases n,
{
    if n < 10 {
        seq![digit_char(n)]
    } else {
        decimal(n / 10).push(digit_char(n % 10))
    }
}

/// Whether all characters are decimal digits.
pub open spec fn all_digits(s: Seq<char>) -> bool {
    forall|i: int| 0 <= i < s.len() ==> is_digit(#[trigger] s[i])
}

/// The number that a sequence of decimal digits stands for.
pub open spec fn number(s: Seq<char>) -> nat
    decreases s.len(),
{
    if s.len() == 0 {
        0
    } else {
        number(s.drop_last()) * 10 + digit_value(s.last())
    }
}

/// The digits of an unsigned number, which may follow one plus sign.
pub open spec fn unsigned_digits(s: Seq<char>) -> Seq<char> {
    if s.len() > 0 && s[0] == '+' {
        s.skip(1)
    } else {
        s
    }
}

/// What an unsigned number of at most `max` is written as: one or more decimal
/// digits, with or without a plus sign before them.
pub open spec fn unsigned(s: Seq<char>, max: nat) -> Option<nat> {
    let digits = unsigned_digits(s);
    if digits.len() > 0 && all_digits(digits) && number(digits) <= max {
        Some(number(digits))
    } else {
        None
    }
}

/// The number of a part of the digits from the left is not above that of all.
proof fn lemma_number_monotonic(s: Seq<char>, i: int)
    requires
        0 <= i <= s.len(),
    ensures
        number(s.take(i)) <= number(s),
    decreases s.len() - i,
{
    if i == s.len() {
        assert(s.take(i) == s);
    } else {
        lemma_number_monotonic(s, i + 1);
        assert(s.take(i + 1).drop_last() == s.take(i));
    }
}

/// Reads the characters `from..to` as an unsigned number of at most `max`.
pub fn parse_unsigned(s: &Vec<char>, from: usize, to: usize, max: u64) -> (r: Option<u64>)
    requires
        from <= to <= s@.len(),
    ensures
        match r {
            Some(n) => unsigned(s@.subrange(from as int, to as int), max as nat) == Some(n as nat),
            None => unsigned(s@.subrange(from as int, to as int), max as nat) is None,
        },
{
    let ghost part = s@.subrange(from as int, to as int);
    let ghost digits = unsigned_digits(part);
    let mut i: usize = from;
    if from < to && s[from] == '+' {
        i = from + 1;
    }
    let start: usize = i;
    if start == to {
        return None;
    }
    let mut value: u64 = 0;
    while i < to
        invariant
            start <= i <= to <= s@.len(),
            digits == s@.subrange(start as int, to as int),
            all_digits(digits.take(i - start)),
            value == number(digits.take(i - start)),
            value <= max,
            digits == unsigned_digits(part),
            part == s@.subrange(from as int, to as int),
        decreases to - i,
    {
        let c: char = s[i];
        proof {
            assert(digits.take(i - start + 1).drop_last() == digits.take(i - start));
            assert(digits.take(i - start + 1).last() == c);
            assert(c == digits[i - start]);
        }
        if !('0' <= c && c <= '9') {
            return None;
        }
        let d: u64 = (c as u32 - 48) as u64;
        if d > max || value > (max - d) / 10 {
            proof {
                lemma_number_monotonic(digits, i - start + 1);
            }
            return None;
        }
        value = value * 10 + d;
        i = i + 1;
    }
    assert(digits.take(i - start) == digits);
    Some(value)
}

/// The decimal notation of a number has at least one character, all of them
/// digits, and stands for that number.
pub proof fn lemma_decimal(n: nat)
    ensures
        decimal(n).len() > 0,
        all_digits(decimal(n)),
        number(decimal(n)) == n,
    decreases n,
{
    if n < 10 {
        assert(decimal(n).drop_last() == Seq::<char>::empty());
        assert(number(Seq::<char>::empty()) == 0);
    } else {
        lemma_decimal(n / 10);
        assert(decimal(n).drop_last() == decimal(n / 10));
    }
}

/// What a number is written as is read back as that number.
pub proof fn lemma_decimal_unsigned(n: nat, max: nat)
    requires
        n <= max,
    ensures
        unsigned(decimal(n), max) == Some(n),
{
    lemma_decimal(n);
    assert(is_digit(decimal(n)[0]));
}

/// A number that is followed by no digit is told from the text, and so is what
/// follows it.
pub proof fn lemma_decimal_prefix(a: nat, x: Seq<char>, b: nat, y: Seq<char>)
    requires
        decimal(a) + x == decimal(b) + y,
        x.len() > 0 ==> !is_digit(x[0]),
        y.len() > 0 ==> !is_digit(y[0]),
    ensures
        a == b,
        x == y,
{
    let p = decimal(a);
    let q = decimal(b);
    let s = p + x;
    lemma_decimal(a);
    lemma_decimal(b);
    if p.len() < q.len() {
        assert(s[p.len() as int] == (q + y)[p.len() as int]);
        assert(is_digit(q[p.len() as int]));
    }
    if q.len() < p.len() {
        assert(s[q.len() as int] == (q + y)[q.len() as int]);
        assert(is_digit(p[q.len() as int]));
    }
    assert(s.take(p.len() as int) =~= p);
    assert((q + y).take(q.len() as int) =~= q);
    assert(s.skip(p.len() as int) =~= x);
    assert((q + y).skip(q.len() as int) =~= y);
}

/// Appends the decimal notation of a number.
pub fn push_decimal(out: &mut String, n: u64)
    ensures
        final(out)@ == old(out)@ + decimal(n as nat),
    decreases n,
{
    if n >= 10 {
        push_decimal(out, n / 10);
    }
    let d: u8 = (n % 10) as u8;
    out.push((48u8 + d) as char);
}

/// The lower-case hexadecimal digit of a value below sixteen.
pub open spec fn hex_digit(d: nat) -> char {
    if d < 10 {
        ('0' as nat + d) as char
    } else {
        ('a' as nat + d - 10) as char
    }
}

/// The two hexadecimal digits of a byte.
pub open spec fn hex_byte(b: u8) -> Seq<char> {
    seq![hex_digit((b / 16) as nat), hex_digit((b % 16) as nat)]
}

/// The hexadecimal notation of bytes, two digits for each.
pub open spec fn hex(bytes: Seq<u8>) -> Seq<char>
    decreases bytes.len(),
{
    if bytes.len() == 0 {
        seq![]
    } else {
        hex(bytes.drop_last()) + hex_byte(bytes.last())
    }
}

fn hex_digit_char(d: u8) -> (r: char)
    requires
        d < 16,
    ensures
        r == hex_digit(d as nat),
{
    if d < 10 {
        (48u8 + d) as char
    } else {
        (87u8 + d) as char
    }
}

/// Appends the hexadecimal notation of bytes.
pub fn push_hex(out: &mut String, bytes: &[u8])
    ensures
        final(out)@ == old(out)@ + hex(bytes@),
{
    let mut i: usize = 0;
    while i < bytes.len()
        invariant
            0 <= i <= bytes@.len(),
            out@ == old(out)@ + hex(bytes@.take(i as int)),
        decreases bytes@.len() - i,
    {
        let b: u8 = bytes[i];
        out.push(hex_digit_char(b / 16));
        out.push(hex_digit_char(b % 16));
        proof {
            assert(bytes@.take(i + 1).drop_last() == bytes@.take(i as int));
        }
        i = i + 1;
    }
    assert(bytes@.take(i as int) == bytes@);
}

/// Trimming keeps one stretch of a string: all that it takes away at either end
/// is white space, and what is left neither starts nor ends with white space.
pub proof fn law_trimmed(s: Seq<char>) -> (r: (int, int))
    ensures
        0 <= r.0 <= r.1 <= s.len(),
        trimmed(s) == s.subrange(r.0, r.1),
        forall|k: int| 0 <= k < r.0 ==> is_white_space(#[trigger] s[k]),
        forall|k: int| r.1 <= k < s.len() ==> is_white_space(#[trigger] s[k]),
        r.0 < r.1 ==> !is_white_space(s[r.0]) && !is_white_space(s[r.1 - 1]),
{
    let i = lemma_trimmed_start(s);
    let t = trimmed_start(s);
    let j = lemma_trimmed_end(t);
    assert(t.subrange(0, j) =~= s.subrange(i, i + j));
    assert forall|k: int| i + j <= k < s.len() implies is_white_space(#[trigger] s[k]) by {
        assert(s[k] == t[k - i]);
    }
    if 0 < j {
        assert(s[i] == t[0]);
        assert(s[i + j - 1] == t[j - 1]);
    }
    (i, i + j)
}

proof fn lemma_trimmed_start(s: Seq<char>) -> (i: int)
    ensures
        0 <= i <= s.len(),
        trimmed_start(s) == s.subrange(i, s.len() as int),
        forall|k: int| 0 <= k < i ==> is_white_space(#[trigger] s[k]),
        i < s.len() ==> !is_white_space(s[i]),
    decreases s.len(),
{
    if s.len() > 0 && is_white_space(s.first()) {
        let rest = s.drop_first();
        let i = lemma_trimmed_start(rest);
        assert(rest.subrange(i, rest.len() as int) =~= s.subrange(i + 1, s.len() as int));
        assert forall|k: int| 0 <= k < i + 1 implies is_white_space(#[trigger] s[k]) by {
            if k > 0 {
                assert(s[k] == rest[k - 1]);
            }
        }
        if i < rest.len() {
            assert(s[i + 1] == rest[i]);
        }
        i + 1
    } else {
        assert(s.subrange(0, s.len() as int) =~= s);
        0
    }
}

proof fn lemma_trimmed_end(s: Seq<char>) -> (j: int)
    ensures
        0 <= j <= s.len(),
        trimmed_end(s) == s.subrange(0, j),
        forall|k: int| j <= k < s.len() ==> is_white_space(#[trigger] s[k]),
        0 < j ==> !is_white_space(s[j - 1]),
    decreases s.len(),
{
    if s.len() > 0 && is_white_space(s.last()) {
        let rest = s.drop_last();
        let j = lemma_trimmed_end(rest);
        assert(rest.subrange(0, j) =~= s.subrange(0, j));
        assert forall|k: int| j <= k < s.len() implies is_white_space(#[trigger] s[k]) by {
            if k < rest.len() {
                assert(s[k] == rest[k]);
            }
        }
        if 0 < j {
            assert(s[j - 1] == rest[j - 1]);
        }
        j
    } else {
        assert(s.subrange(0, s.len() as int) =~= s);
        s.len() as int
    }
}

/// White space around a text is trimmed away, where the text itself neither
/// starts nor ends with white space.
pub proof fn law_white_space_is_trimmed(before: Seq<char>, s: Seq<char>, after: Seq<char>)
    requires
        forall|k: int| 0 <= k < before.len() ==> is_white_space(#[trigger] before[k]),
        forall|k: int| 0 <= k < after.len() ==> is_white_space(#[trigger] after[k]),
        s.len() > 0,
        !is_white_space(s.first()),
        !is_white_space(s.last()),
    ensures
        trimmed(before + s + after) == s,
{
    let t = before + s + after;
    let n = before.len() as int;
    let (i, j) = law_trimmed(t);
    assert(t[n] == s[0]);
    assert(t[n + s.len() - 1] == s[s.len() - 1]);
    assert(i <= n && n + s.len() <= j);
    if i < n {
        assert(t[i] == before[i]);
    }
    if n + s.len() < j {
        assert(t[j - 1] == after[j - 1 - n - s.len()]);
    }
    assert(t.subrange(n, n + s.len()) =~= s);
}

/// The characters of white space that ASCII has are the blank and those from
/// tabulator to carriage return.
pub proof fn law_ascii_white_space(c: char)
    requires
        (c as int) < 128,
    ensures
        is_white_space(c) <==> (c as int == 32 || 9 <= c as int <= 13),
{
}

/// Lower case replaces the letters from A to Z of an ASCII string by those from
/// a to z and nothing else.
pub proof fn law_lowered(s: Seq<char>, i: int)
    requires
        is_ascii_chars(s),
        0 <= i < s.len(),
    ensures
        lowered(s).len() == s.len(),
        65 <= s[i] as int <= 90 ==> lowered(s)[i] as int == s[i] as int + 32,
        !(65 <= s[i] as int <= 90) ==> lowered(s)[i] == s[i],
{
}

/// The digits are the characters from 0 to 9, and no digits stand for zero. A
/// further digit makes a number ten times as large and adds its own value.
pub proof fn law_number(s: Seq<char>, c: char)
    ensures
        is_digit(c) <==> 48 <= c as int <= 57,
        number(Seq::<char>::empty()) == 0,
        48 <= c as int <= 57 ==> number(s.push(c)) == 10 * number(s) + (c as int - 48),
{
    assert(s.push(c).drop_last() =~= s);
}

/// The decimal notation of a number consists of digits which stand for that
/// number, and starts with a zero for the number zero only.
pub proof fn law_decimal(n: nat)
    ensures
        decimal(n).len() > 0,
        forall|i: int| 0 <= i < decimal(n).len() ==> 48 <= #[trigger] decimal(n)[i] as int <= 57,
        number(decimal(n)) == n,
        decimal(n)[0] == '0' <==> n == 0,
        n < 10 ==> decimal(n).len() == 1,
    decreases n,
{
    lemma_decimal(n);
    assert forall|i: int| 0 <= i < decimal(n).len() implies 48 <= #[trigger] decimal(n)[i] as int
        <= 57 by {
        assert(is_digit(decimal(n)[i]));
    }
    if n >= 10 {
        law_decimal(n / 10);
    }
}

/// Digits are read as the number that they stand for, with and without a plus
/// sign before them, unless the number is too large.
pub proof fn law_unsigned_digits(s: Seq<char>, max: nat)
    requires
        s.len() > 0,
        forall|i: int| 0 <= i < s.len() ==> 48 <= #[trigger] s[i] as int <= 57,
    ensures
        number(s) <= max ==> unsigned(s, max) == Some(number(s)),
        number(s) <= max ==> unsigned(seq!['+'] + s, max) == Some(number(s)),
        number(s) > max ==> unsigned(s, max) is None,
        number(s) > max ==> unsigned(seq!['+'] + s, max) is None,
{
    assert(48 <= s[0] as int <= 57);
    assert((seq!['+'] + s).skip(1) =~= s);
    assert(all_digits(s));
}

/// Nothing is read as a number that holds no digit, or a character other than a
/// digit which is no plus sign at the start.
pub proof fn law_unsigned_refused(s: Seq<char>, max: nat, i: int)
    requires
        0 <= i < s.len(),
        !(48 <= s[i] as int <= 57),
        i == 0 ==> s[0] != '+',
    ensures
        unsigned(s, max) is None,
        unsigned(Seq::<char>::empty(), max) is None,
        unsigned(seq!['+'], max) is None,
{
    let digits = unsigned_digits(s);
    if s[0] == '+' {
        assert(digits[i - 1] == s[i]);
        assert(!is_digit(digits[i - 1]));
    } else {
        assert(!is_digit(digits[i]));
    }
    assert(unsigned_digits(seq!['+']).len() == 0);
}

/// A byte takes two of the characters from 0 to 9 and from a to f, the first for
/// its sixteens and the second for the rest.
pub proof fn law_hex(bytes: Seq<u8>, i: int)
    requires
        0 <= i < bytes.len(),
    ensures
        hex(Seq::<u8>::empty()).len() == 0,
        hex(bytes).len() == 2 * bytes.len(),
        bytes[i] / 16 < 10 ==> hex(bytes)[2 * i] as int == 48 + bytes[i] / 16,
        bytes[i] / 16 >= 10 ==> hex(bytes)[2 * i] as int == 87 + bytes[i] / 16,
        bytes[i] % 16 < 10 ==> hex(bytes)[2 * i + 1] as int == 48 + bytes[i] % 16,
        bytes[i] % 16 >= 10 ==> hex(bytes)[2 * i + 1] as int == 87 + bytes[i] % 16,
    decreases bytes.len(),
{
    let rest = bytes.drop_last();
    if rest.len() > 0 {
        law_hex(rest, if i < rest.len() { i } else { 0 });
    }
    assert(hex(bytes) == hex(rest) + hex_byte(bytes.last()));
}

} // verus!
