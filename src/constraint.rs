use vstd::prelude::*;
use crate::domain::NumericDomain;

verus! {

/// A requirement on one media property: an exact value, or a range.
pub enum Constrain<T> {
    Value(T),
    Range(ConstrainRange<T>),
}

/// A range with optional bounds and an optional preferred value. Missing bounds
/// take the property's defaults when encoded; `min <= max` is not checked.
pub struct ConstrainRange<T> {
    pub min: Option<T>,
    pub max: Option<T>,
    pub ideal: Option<T>,
}

/// The text of an optional string.
pub open spec fn text_of(r: Option<String>) -> Option<Seq<char>> {
    match r {
        Some(s) => Some(s@),
        None => None,
    }
}

/// The text of a range bound: the value's text, or the default when the bound
/// is missing or the domain rejects it.
pub open spec fn bound_text<T: NumericDomain>(b: Option<T>, default: Seq<char>) -> Seq<char> {
    match b {
        Some(v) => match v.spec_text() {
            Some(t) => t,
            None => default,
        },
        None => default,
    }
}

/// `prefix[min, max]`.
pub open spec fn range_expr(prefix: Seq<char>, min: Seq<char>, max: Seq<char>) -> Seq<char> {
    prefix + seq!['['] + min + seq![',', ' '] + max + seq![']']
}

/// `prefix{ ideal, [min, max] }`.
pub open spec fn preferred_range_expr(
    prefix: Seq<char>,
    ideal: Seq<char>,
    min: Seq<char>,
    max: Seq<char>,
) -> Seq<char> {
    prefix + seq!['{', ' '] + ideal + seq![',', ' ', '['] + min + seq![',', ' '] + max + seq![
        ']',
        ' ',
        '}',
    ]
}

/// The expression that a constraint encodes to, given the texts of the default
/// bounds, or `None` when an exact value is rejected by its domain.
pub open spec fn encoded<T: NumericDomain>(
    c: Constrain<T>,
    default_min: Seq<char>,
    default_max: Seq<char>,
) -> Option<Seq<char>> {
    match c {
        Constrain::Value(v) => match v.spec_text() {
            Some(t) => Some(T::spec_prefix() + t),
            None => None,
        },
        Constrain::Range(r) => {
            let min = bound_text(r.min, default_min);
            let max = bound_text(r.max, default_max);
            match r.ideal {
                Some(i) => match i.spec_text() {
                    Some(t) => Some(preferred_range_expr(T::spec_prefix(), t, min, max)),
                    None => Some(range_expr(T::spec_prefix(), min, max)),
                },
                None => Some(range_expr(T::spec_prefix(), min, max)),
            }
        },
    }
}

fn resolve_bound<T: NumericDomain>(b: Option<T>, default: &str) -> (r: String)
    ensures
        r@ == bound_text(b, default@),
{
    match b {
        Some(v) => match v.format() {
            Some(t) => t,
            None => String::from_str(default),
        },
        None => String::from_str(default),
    }
}

impl<T: NumericDomain> Constrain<T> {
    /// Encodes the constraint as a capability expression; a missing or rejected
    /// bound falls back to its default text, a rejected ideal is left out, and a
    /// rejected exact value gives `None`.
    pub fn encode(self, default_min: &str, default_max: &str) -> (r: Option<String>)
        ensures
            text_of(r) == encoded(self, default_min@, default_max@),
    {
        proof {
            reveal_strlit("[");
            reveal_strlit(", ");
            reveal_strlit("]");
            reveal_strlit("{ ");
            reveal_strlit(", [");
            reveal_strlit("] }");
        }
        match self {
            Constrain::Value(v) => match v.format() {
                Some(t) => {
                    let mut s = String::from_str(T::prefix());
                    s.append(t.as_str());
                    Some(s)
                },
                None => None,
            },
            Constrain::Range(r) => {
                let min = resolve_bound(r.min, default_min);
                let max = resolve_bound(r.max, default_max);
                let ideal = match r.ideal {
                    Some(i) => i.format(),
                    None => None,
                };
                let mut s = String::from_str(T::prefix());
                match ideal {
                    Some(t) => {
                        s.append("{ ");
                        s.append(t.as_str());
                        s.append(", [");
                        s.append(min.as_str());
                        s.append(", ");
                        s.append(max.as_str());
                        s.append("] }");
                        assert(s@ =~= preferred_range_expr(T::spec_prefix(), t@, min@, max@));
                    },
                    None => {
                        s.append("[");
                        s.append(min.as_str());
                        s.append(", ");
                        s.append(max.as_str());
                        s.append("]");
                        assert(s@ =~= range_expr(T::spec_prefix(), min@, max@));
                    },
                }
                Some(s)
            },
        }
    }
}

} // verus!
