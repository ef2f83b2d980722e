//! The order of invoices, which is that of their texts.
use core::cmp::Ordering;
use vstd::prelude::*;
use vstd::string::StringSliceAdditionalSpecFns;
use vstd::utf8::{encode_utf8, encode_utf8_decode_utf8};

verus! {

/// The first index, from the given one on, at which two sequences differ or one
/// of them ends.
pub open spec fn difference_from(a: Seq<u8>, b: Seq<u8>, i: int) -> int
    decreases a.len() - i,
{
    if i >= a.len() || i >= b.len() || a[i] != b[i] {
        i
    } else {
        difference_from(a, b, i + 1)
    }
}

/// The first index at which two sequences differ or one of them ends.
pub open spec fn difference(a: Seq<u8>, b: Seq<u8>) -> int {
    difference_from(a, b, 0)
}

/// The lexicographic order of byte sequences.
pub open spec fn byte_order(a: Seq<u8>, b: Seq<u8>) -> Ordering {
    let i = difference(a, b);
    if i < a.len() && i < b.len() {
        if a[i] < b[i] {
            Ordering::Less
        } else {
            Ordering::Greater
        }
    } else if i < b.len() {
        Ordering::Less
    } else if i < a.len() {
        Ordering::Greater
    } else {
        Ordering::Equal
    }
}

/// Finds the first index at which two slices differ or one of them ends.
fn find_difference(a: &[u8], b: &[u8]) -> (r: usize)
    ensures
        r == difference(a@, b@),
        r <= a@.len(),
        r <= b@.len(),
{
    let mut i: usize = 0;
    while i < a.len() && i < b.len() && a[i] == b[i]
        invariant
            i <= a@.len(),
            i <= b@.len(),
            difference(a@, b@) == difference_from(a@, b@, i as int),
        decreases a@.len() - i,
    {
        i = i + 1;
    }
    i
}

/// Compares the texts of two invoices, byte by byte.
pub fn text_order(a: &str, b: &str) -> (r: Ordering)
    ensures
        r == byte_order(a.spec_bytes(), b.spec_bytes()),
{
    let x = a.as_bytes();
    let y = b.as_bytes();
    let i: usize = find_difference(x, y);
    if i < x.len() && i < y.len() {
        if x[i] < y[i] {
            Ordering::Less
        } else {
            Ordering::Greater
        }
    } else if i < y.len() {
        Ordering::Less
    } else if i < x.len() {
        Ordering::Greater
    } else {
        Ordering::Equal
    }
}

/// Up to the first difference two sequences are the same.
proof fn lemma_difference(a: Seq<u8>, b: Seq<u8>, i: int)
    requires
        0 <= i <= a.len(),
        i <= b.len(),
        forall|j: int| 0 <= j < i ==> a[j] == b[j],
    ensures
        ({
            let k = difference_from(a, b, i);
            &&& i <= k <= a.len()
            &&& k <= b.len()
            &&& forall|j: int| 0 <= j < k ==> a[j] == b[j]
            &&& k < a.len() && k < b.len() ==> a[k] != b[k]
        }),
    decreases a.len() - i,
{
    if !(i >= a.len() || i >= b.len() || a[i] != b[i]) {
        lemma_difference(a, b, i + 1);
    }
}

/// The first difference is where two sequences agree up to it and differ there,
/// or one of them ends.
proof fn lemma_is_difference(a: Seq<u8>, b: Seq<u8>, k: int)
    requires
        0 <= k <= a.len(),
        k <= b.len(),
        forall|j: int| 0 <= j < k ==> a[j] == b[j],
        k < a.len() && k < b.len() ==> a[k] != b[k],
    ensures
        difference(a, b) == k,
{
    lemma_difference(a, b, 0);
    let d = difference(a, b);
    if d < k {
        assert(a[d] == b[d]);
    } else if k < d {
        assert(a[k] == b[k]);
    }
}

/// Sequences of bytes compare as equal if and only if they are the same.
pub proof fn law_order_equal(a: Seq<u8>, b: Seq<u8>)
    ensures
        byte_order(a, b) == Ordering::Equal <==> a == b,
{
    lemma_difference(a, b, 0);
    if byte_order(a, b) == Ordering::Equal {
        assert(a =~= b);
    }
}

/// A sequence comes before another if and only if that comes behind it.
pub proof fn law_order_reversed(a: Seq<u8>, b: Seq<u8>)
    ensures
        byte_order(a, b) == Ordering::Less <==> byte_order(b, a) == Ordering::Greater,
{
    lemma_difference(a, b, 0);
    lemma_is_difference(b, a, difference(a, b));
}

/// What comes before a sequence comes before all that this one comes before.
pub proof fn law_order_transitive(a: Seq<u8>, b: Seq<u8>, c: Seq<u8>)
    requires
        byte_order(a, b) == Ordering::Less,
        byte_order(b, c) == Ordering::Less,
    ensures
        byte_order(a, c) == Ordering::Less,
{
    lemma_difference(a, b, 0);
    lemma_difference(b, c, 0);
    let i = difference(a, b);
    let j = difference(b, c);
    if i < j {
        lemma_is_difference(a, c, i);
    } else {
        lemma_is_difference(a, c, j);
    }
}

/// Invoices compare as equal if and only if they have the same text.
pub proof fn law_text_order_equal(a: Seq<char>, b: Seq<char>)
    ensures
        byte_order(encode_utf8(a), encode_utf8(b)) == Ordering::Equal <==> a == b,
{
    law_order_equal(encode_utf8(a), encode_utf8(b));
    encode_utf8_decode_utf8(a);
    encode_utf8_decode_utf8(b);
}

/// Where two sequences start the same, the first byte in which they differ
/// decides, whatever follows it.
pub proof fn law_order_first_difference(
    same: Seq<u8>,
    x: u8,
    y: u8,
    a: Seq<u8>,
    b: Seq<u8>,
)
    requires
        x < y,
    ensures
        byte_order(same + seq![x] + a, same + seq![y] + b) == Ordering::Less,
        byte_order(same + seq![y] + b, same + seq![x] + a) == Ordering::Greater,
{
    let s = same + seq![x] + a;
    let t = same + seq![y] + b;
    lemma_agreed(s, t, same);
    lemma_agreed(t, s, same);
}

/// The end of the part in which two sequences agree is where they differ.
proof fn lemma_agreed(s: Seq<u8>, t: Seq<u8>, same: Seq<u8>)
    requires
        same.len() < s.len(),
        same.len() < t.len(),
        forall|k: int| 0 <= k < same.len() ==> s[k] == #[trigger] same[k],
        forall|k: int| 0 <= k < same.len() ==> t[k] == #[trigger] same[k],
        s[same.len() as int] != t[same.len() as int],
    ensures
        difference(s, t) == same.len(),
{
    assert forall|j: int| 0 <= j < same.len() implies s[j] == t[j] by {
        assert(s[j] == same[j]);
    }
    lemma_is_difference(s, t, same.len() as int);
}

/// A sequence differs at its end from longer ones that start with it.
proof fn lemma_prefix(a: Seq<u8>, b: Seq<u8>)
    ensures
        difference(a, a + b) == a.len(),
        difference(a + b, a) == a.len(),
{
    lemma_is_difference(a, a + b, a.len() as int);
    lemma_is_difference(a + b, a, a.len() as int);
}

/// A sequence comes before all longer ones that start with it.
pub proof fn law_order_prefix(a: Seq<u8>, b: Seq<u8>)
    requires
        b.len() > 0,
    ensures
        byte_order(a, a + b) == Ordering::Less,
        byte_order(a + b, a) == Ordering::Greater,
{
    lemma_prefix(a, b);
}

} // verus!
