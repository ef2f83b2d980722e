//! Intervals of recurrent payments.
use vstd::prelude::*;

use crate::text::{decimal, lemma_decimal_prefix, push_decimal};

verus! {

/// Interval between recurrent payments.
#[derive(Copy, Clone, PartialOrd, Ord, PartialEq, Eq, Debug, Structural)]
#[non_exhaustive]
pub enum Recurrent {
    NonRecurrent,
    Seconds(u64),
    Months(u8),
    Years(u8),
}

impl Recurrent {
    /// The text of an interval.
    pub open spec fn text(&self) -> Seq<char> {
        match *self {
            Recurrent::NonRecurrent => "non-recurrent"@,
            Recurrent::Seconds(n) => "each "@ + decimal(n as nat) + " seconds"@,
            Recurrent::Months(n) => "each "@ + decimal(n as nat) + " months"@,
            Recurrent::Years(n) => "each "@ + decimal(n as nat) + " years"@,
        }
    }

    /// Writes the interval.
    pub fn to_string(&self) -> (r: String)
        ensures
            r@ == self.text(),
            match *self {
                Recurrent::NonRecurrent => r@ == "non-recurrent"@,
                Recurrent::Seconds(n) => r@ == "each "@ + decimal(n as nat) + " seconds"@,
                Recurrent::Months(n) => r@ == "each "@ + decimal(n as nat) + " months"@,
                Recurrent::Years(n) => r@ == "each "@ + decimal(n as nat) + " years"@,
            },
    {
        let mut r = String::new();
        match *self {
            Recurrent::NonRecurrent => r.append("non-recurrent"),
            Recurrent::Seconds(n) => {
                r.append("each ");
                push_decimal(&mut r, n);
                r.append(" seconds");
            },
            Recurrent::Months(n) => {
                r.append("each ");
                push_decimal(&mut r, n as u64);
                r.append(" months");
            },
            Recurrent::Years(n) => {
                r.append("each ");
                push_decimal(&mut r, n as u64);
                r.append(" years");
            },
        }
        r
    }
}

impl Default for Recurrent {
    fn default() -> (r: Recurrent)
        ensures
            r == Recurrent::NonRecurrent,
    {
        Recurrent::NonRecurrent
    }
}

/// The text of an interval names its number and its unit.
pub proof fn law_recurrent_text(n: u64, m: u8)
    ensures
        Recurrent::NonRecurrent.text() == "non-recurrent"@,
        Recurrent::Seconds(n).text() == "each "@ + decimal(n as nat) + " seconds"@,
        Recurrent::Months(m).text() == "each "@ + decimal(m as nat) + " months"@,
        Recurrent::Years(m).text() == "each "@ + decimal(m as nat) + " years"@,
{
}

/// The number of an interval.
spec fn count(interval: Recurrent) -> nat {
    match interval {
        Recurrent::NonRecurrent => 0,
        Recurrent::Seconds(n) => n as nat,
        Recurrent::Months(n) => n as nat,
        Recurrent::Years(n) => n as nat,
    }
}

/// The unit of an interval.
spec fn unit(interval: Recurrent) -> Seq<char> {
    match interval {
        Recurrent::NonRecurrent => seq![],
        Recurrent::Seconds(_) => " seconds"@,
        Recurrent::Months(_) => " months"@,
        Recurrent::Years(_) => " years"@,
    }
}

/// Different intervals are written differently.
pub proof fn law_recurrent_texts_differ(a: Recurrent, b: Recurrent)
    requires
        a != b,
    ensures
        a.text() != b.text(),
{
    reveal_strlit("non-recurrent");
    reveal_strlit("each ");
    reveal_strlit(" seconds");
    reveal_strlit(" months");
    reveal_strlit(" years");
    if a.text() == b.text() {
        if a is NonRecurrent {
            assert(a.text()[0] == 'n' && b.text()[0] == 'e');
        } else if b is NonRecurrent {
            assert(a.text()[0] == 'e' && b.text()[0] == 'n');
        } else {
            assert(a.text().skip(5) =~= decimal(count(a)) + unit(a));
            assert(b.text().skip(5) =~= decimal(count(b)) + unit(b));
            lemma_decimal_prefix(count(a), unit(a), count(b), unit(b));
            assert(unit(a)[1] == unit(b)[1]);
        }
    }
}

} // verus!
