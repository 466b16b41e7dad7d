use vstd::prelude::*;
use crate::decimal::{decimal_text, to_decimal};

verus! {

/// A fraction `numer / denom`. A value counts as positive, and so as a value that
/// the rational domain can write, when both parts are positive.
#[derive(Clone, Copy, Debug, PartialEq, Eq)]
pub struct Rational {
    pub numer: i32,
    pub denom: i32,
}

impl Rational {
    pub open spec fn is_positive(self) -> bool {
        self.numer > 0 && self.denom > 0
    }

    pub fn new(numer: i32, denom: i32) -> (r: Rational)
        ensures
            r.numer == numer,
            r.denom == denom,
    {
        Rational { numer, denom }
    }
}

/// A numeric value space of a media property: how a value is tagged and written
/// in a capability expression, and which values it rejects.
pub trait NumericDomain: Sized {
    /// The tag written in front of an expression of this domain.
    spec fn spec_prefix() -> Seq<char>;

    /// The text of a value, or `None` when the domain rejects it.
    spec fn spec_text(&self) -> Option<Seq<char>>;

    fn prefix() -> (r: &'static str)
        ensures
            r@ == Self::spec_prefix(),
    ;

    fn format(&self) -> (r: Option<String>)
        ensures
            r.is_some() == self.spec_text().is_some(),
            r.is_some() ==> r.unwrap()@ == self.spec_text().unwrap(),
    ;
}

/// The text of a positive fraction, `numer/denom` in decimal.
pub open spec fn fraction_text(numer: nat, denom: nat) -> Seq<char> {
    decimal_text(numer) + seq!['/'] + decimal_text(denom)
}

/// Pixel counts: no tag, written in decimal, every value accepted.
impl NumericDomain for u64 {
    open spec fn spec_prefix() -> Seq<char> {
        Seq::empty()
    }

    open spec fn spec_text(&self) -> Option<Seq<char>> {
        Some(decimal_text(*self as nat))
    }

    fn prefix() -> (r: &'static str) {
        proof {
            reveal_strlit("");
        }
        ""
    }

    fn format(&self) -> (r: Option<String>) {
        Some(to_decimal(*self))
    }
}

/// Ratios and rates: tagged as fractions, written `numer/denom`; a value that is
/// not positive is rejected.
impl NumericDomain for Rational {
    open spec fn spec_prefix() -> Seq<char> {
        seq!['(', 'f', 'r', 'a', 'c', 't', 'i', 'o', 'n', ')']
    }

    open spec fn spec_text(&self) -> Option<Seq<char>> {
        if self.is_positive() {
            Some(fraction_text(self.numer as nat, self.denom as nat))
        } else {
            None
        }
    }

    fn prefix() -> (r: &'static str) {
        proof {
            reveal_strlit("(fraction)");
        }
        "(fraction)"
    }

    fn format(&self) -> (r: Option<String>) {
        if self.numer > 0 && self.denom > 0 {
            let mut s = to_decimal(self.numer as u64);
            proof {
                reveal_strlit("/");
            }
            s.append("/");
            let d = to_decimal(self.denom as u64);
            s.append(d.as_str());
            Some(s)
        } else {
            None
        }
    }
}

} // verus!
