//! Number of items that are paid for.
use vstd::prelude::*;

use crate::text::{decimal, lemma_decimal_prefix, push_decimal};

verus! {

/// Number of items: the least, the most, if it is limited, and what is assumed.
#[derive(Copy, Clone, PartialOrd, Ord, PartialEq, Eq, Hash, Debug, Structural)]
pub struct Quantity {
    pub min: u32,
    pub max: Option<u32>,
    pub default: u32,
}

impl Quantity {
    /// What is said of the numbers that are accepted.
    pub open spec fn range_text(&self) -> Seq<char> {
        match self.max {
            Some(max) => if self.min == 0 {
                " (or any amount up to "@ + decimal(max as nat) + seq![')']
            } else {
                " (or from "@ + decimal(self.min as nat) + " to "@ + decimal(max as nat) + seq![')']
            },
            None => if self.min == 0 {
                seq![]
            } else {
                " (or any amount above "@ + decimal(self.min as nat) + seq![')']
            },
        }
    }

    /// The text of a quantity.
    pub open spec fn text(&self) -> Seq<char> {
        decimal(self.default as nat) + " items"@ + self.range_text()
    }

    /// Writes the assumed number and the limits on it, where there are any.
    pub fn to_string(&self) -> (r: String)
        ensures
            r@ == self.text(),
            match (self.min == 0, self.max) {
                (true, None) => r@ == decimal(self.default as nat) + " items"@,
                (true, Some(max)) => r@ == decimal(self.default as nat)
                    + " items (or any amount up to "@ + decimal(max as nat) + seq![')'],
                (false, None) => r@ == decimal(self.default as nat)
                    + " items (or any amount above "@ + decimal(self.min as nat) + seq![')'],
                (false, Some(max)) => r@ == decimal(self.default as nat) + " items (or from "@
                    + decimal(self.min as nat) + " to "@ + decimal(max as nat) + seq![')'],
            },
    {
        proof {
            law_quantity_text(*self);
        }
        let mut r = String::new();
        push_decimal(&mut r, self.default as u64);
        r.append(" items");
        match self.max {
            Some(max) => {
                if self.min == 0 {
                    r.append(" (or any amount up to ");
                } else {
                    r.append(" (or from ");
                    push_decimal(&mut r, self.min as u64);
                    r.append(" to ");
                }
                push_decimal(&mut r, max as u64);
                r.push(')');
            },
            None => {
                if self.min != 0 {
                    r.append(" (or any amount above ");
                    push_decimal(&mut r, self.min as u64);
                    r.push(')');
                }
            },
        }
        assert(r@ =~= self.text());
        r
    }
}

impl Default for Quantity {
    fn default() -> (r: Quantity)
        ensures
            r == (Quantity { min: 0, max: None, default: 1 }),
    {
        Quantity { min: 0, max: None, default: 1 }
    }
}

impl vstd::std_specs::convert::FromSpecImpl<u32> for Quantity {
    open spec fn obeys_from_spec() -> bool {
        true
    }

    open spec fn from_spec(default: u32) -> Quantity {
        Quantity { min: 0, max: None, default }
    }
}

impl From<u32> for Quantity {
    fn from(default: u32) -> (r: Quantity)
        ensures
            r == (Quantity { min: 0, max: None, default }),
    {
        Quantity { min: 0, max: None, default }
    }
}

/// Different limits are written differently.
#[verifier::rlimit(50)]
#[verifier::spinoff_prover]
proof fn lemma_range_texts_differ(a: Quantity, b: Quantity)
    requires
        a.range_text() == b.range_text(),
    ensures
        a.min == b.min,
        a.max == b.max,
{
    reveal_strlit(" (or any amount up to ");
    reveal_strlit(" (or from ");
    reveal_strlit(" to ");
    reveal_strlit(" (or any amount above ");
    let s = a.range_text();
    let t = b.range_text();
    let end = seq![')'];
    if a.max is Some && a.min == 0 {
        let rest = decimal(a.max->0 as nat) + end;
        assert(s[5] == 'a' && s[16] == 'u');
        assert(s.skip(22) =~= rest);
        if b.max is Some && b.min == 0 {
            assert(t.skip(22) =~= decimal(b.max->0 as nat) + end);
            lemma_decimal_prefix(a.max->0 as nat, end, b.max->0 as nat, end);
        } else if b.max is Some {
            assert(t[5] == 'f');
        } else if b.min != 0 {
            assert(t[16] == 'a');
        }
    } else if a.max is Some {
        let x = " to "@ + decimal(a.max->0 as nat) + end;
        assert(s[5] == 'f');
        assert(s.skip(10) =~= decimal(a.min as nat) + x);
        if b.max is Some && b.min != 0 {
            let y = " to "@ + decimal(b.max->0 as nat) + end;
            assert(t.skip(10) =~= decimal(b.min as nat) + y);
            lemma_decimal_prefix(a.min as nat, x, b.min as nat, y);
            assert(x.skip(4) =~= decimal(a.max->0 as nat) + end);
            assert(y.skip(4) =~= decimal(b.max->0 as nat) + end);
            lemma_decimal_prefix(a.max->0 as nat, end, b.max->0 as nat, end);
        } else if b.max is Some || b.min != 0 {
            assert(t[5] == 'a');
        }
    } else if a.min != 0 {
        assert(s[5] == 'a' && s[16] == 'a');
        assert(s.skip(22) =~= decimal(a.min as nat) + end);
        if b.max is Some && b.min == 0 {
            assert(t[16] == 'u');
        } else if b.max is Some {
            assert(t[5] == 'f');
        } else if b.min != 0 {
            assert(t.skip(22) =~= decimal(b.min as nat) + end);
            lemma_decimal_prefix(a.min as nat, end, b.min as nat, end);
        }
    } else if b.max is Some || b.min != 0 {
        assert(t.len() > 0);
    }
}

/// Different quantities are written differently.
pub proof fn law_quantity_texts_differ(a: Quantity, b: Quantity)
    requires
        a != b,
    ensures
        a.text() != b.text(),
{
    reveal_strlit(" items");
    if a.text() == b.text() {
        let x = " items"@ + a.range_text();
        let y = " items"@ + b.range_text();
        assert(a.text() =~= decimal(a.default as nat) + x);
        assert(b.text() =~= decimal(b.default as nat) + y);
        lemma_decimal_prefix(a.default as nat, x, b.default as nat, y);
        assert(x.skip(6) =~= a.range_text());
        assert(y.skip(6) =~= b.range_text());
        lemma_range_texts_differ(a, b);
    }
}

/// A quantity is written as the assumed number of items; the limits follow in
/// brackets, the upper one alone where the lower one is zero.
pub proof fn law_quantity_text(quantity: Quantity)
    ensures
        ({
            let default = decimal(quantity.default as nat);
            let min = decimal(quantity.min as nat);
            match (quantity.min == 0, quantity.max) {
                (true, None) => quantity.text() == default + " items"@,
                (true, Some(max)) => quantity.text() == default + " items (or any amount up to "@
                    + decimal(max as nat) + seq![')'],
                (false, None) => quantity.text() == default + " items (or any amount above "@ + min
                    + seq![')'],
                (false, Some(max)) => quantity.text() == default + " items (or from "@ + min
                    + " to "@ + decimal(max as nat) + seq![')'],
            }
        }),
{
    reveal_strlit(" items");
    reveal_strlit(" (or any amount up to ");
    reveal_strlit(" (or from ");
    reveal_strlit(" (or any amount above ");
    reveal_strlit(" items (or any amount up to ");
    reveal_strlit(" items (or from ");
    reveal_strlit(" items (or any amount above ");
    assert(" items"@ + " (or any amount up to "@ =~= " items (or any amount up to "@);
    assert(" items"@ + " (or from "@ =~= " items (or from "@);
    assert(" items"@ + " (or any amount above "@ =~= " items (or any amount above "@);
    let default = decimal(quantity.default as nat);
    let min = decimal(quantity.min as nat);
    match (quantity.min == 0, quantity.max) {
        (true, None) => assert(quantity.text() =~= default + " items"@),
        (true, Some(max)) => assert(quantity.text() =~= default + (" items"@
            + " (or any amount up to "@) + decimal(max as nat) + seq![')']),
        (false, None) => assert(quantity.text() =~= default + (" items"@
            + " (or any amount above "@) + min + seq![')']),
        (false, Some(max)) => assert(quantity.text() =~= default + (" items"@ + " (or from "@) + min
            + " to "@ + decimal(max as nat) + seq![')']),
    }
}

/// A number alone is the assumed one, without limits.
pub proof fn law_quantity_from(default: u32)
    ensures
        <Quantity as vstd::std_specs::convert::FromSpec<u32>>::from_spec(default) == (Quantity {
            min: 0,
            max: None,
            default,
        }),
{
}

} // verus!
