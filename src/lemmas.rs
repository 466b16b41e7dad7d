use vstd::prelude::*;
use crate::constraint::{bound_text, encoded, preferred_range_expr, range_expr, Constrain, ConstrainRange};
use crate::decimal::{decimal_text, lemma_parse_decimal_text, parse_decimal};
use crate::domain::{fraction_text, NumericDomain, Rational};
use crate::filter::{
    integer_max_text, integer_min_text, set_entries, CapabilityFilter, MediaKind,
    MediaTrackConstraintSet, INTEGER_DEFAULT_MAX,
};

verus! {

/// An exact pixel count within the default bounds encodes to a text that reads
/// back as the same count.
pub proof fn lemma_integer_exact_round_trip(v: u64)
    requires
        v <= INTEGER_DEFAULT_MAX,
    ensures
        encoded(Constrain::Value(v), integer_min_text(), integer_max_text()) == Some(
            decimal_text(v as nat),
        ),
        parse_decimal(decimal_text(v as nat)) == Some(v as nat),
{
    assert(<u64 as NumericDomain>::spec_prefix() + decimal_text(v as nat) =~= decimal_text(
        v as nat,
    ));
    lemma_parse_decimal_text(v as nat);
}

/// A positive fraction encodes to its own numerator and denominator, which read
/// back unchanged; a fraction that is not positive encodes to nothing.
pub proof fn lemma_rational_exact(v: Rational, default_min: Seq<char>, default_max: Seq<char>)
    ensures
        v.is_positive() ==> encoded(Constrain::Value(v), default_min, default_max) == Some(
            Rational::spec_prefix() + fraction_text(v.numer as nat, v.denom as nat),
        ),
        v.is_positive() ==> parse_decimal(decimal_text(v.numer as nat)) == Some(v.numer as nat)
            && parse_decimal(decimal_text(v.denom as nat)) == Some(v.denom as nat),
        !v.is_positive() ==> encoded(Constrain::Value(v), default_min, default_max).is_none(),
{
    if v.is_positive() {
        lemma_parse_decimal_text(v.numer as nat);
        lemma_parse_decimal_text(v.denom as nat);
    }
}

/// A range with only a lower bound takes the default upper bound; one with only
/// an upper bound takes the default lower bound.
pub proof fn lemma_one_sided_range_defaults<T: NumericDomain>(
    bound: T,
    default_min: Seq<char>,
    default_max: Seq<char>,
)
    ensures
        encoded(
            Constrain::Range(ConstrainRange { min: Some(bound), max: None, ideal: None }),
            default_min,
            default_max,
        ) == Some(range_expr(T::spec_prefix(), bound_text(Some(bound), default_min), default_max)),
        encoded(
            Constrain::Range(ConstrainRange { min: None, max: Some(bound), ideal: None }),
            default_min,
            default_max,
        ) == Some(range_expr(T::spec_prefix(), default_min, bound_text(Some(bound), default_max))),
{
}

/// In a constraint set, a width range with only a lower bound reaches up to the
/// default maximum pixel count.
pub proof fn lemma_width_min_only(min: u64)
    ensures
        set_entries(
            MediaTrackConstraintSet {
                width: Some(
                    Constrain::Range(ConstrainRange { min: Some(min), max: None, ideal: None }),
                ),
                height: None,
                aspect: None,
                frame_rate: None,
                sample_rate: None,
            },
        ) == seq![("width"@, range_expr(Seq::empty(), decimal_text(min as nat), integer_max_text()))],
{
    let s = MediaTrackConstraintSet {
        width: Some(Constrain::Range(ConstrainRange { min: Some(min), max: None, ideal: None })),
        height: None,
        aspect: None,
        frame_rate: None,
        sample_rate: None,
    };
    assert(set_entries(s) =~= seq![
        ("width"@, range_expr(Seq::empty(), decimal_text(min as nat), integer_max_text())),
    ]);
}

/// A range whose ideal its domain accepts encodes to the three-part form; the
/// same range without the ideal encodes to the two-part form with the same
/// bounds.
pub proof fn lemma_ideal_form<T: NumericDomain>(
    min: Option<T>,
    max: Option<T>,
    ideal: T,
    default_min: Seq<char>,
    default_max: Seq<char>,
)
    requires
        ideal.spec_text().is_some(),
    ensures
        encoded(
            Constrain::Range(ConstrainRange { min, max, ideal: Some(ideal) }),
            default_min,
            default_max,
        ) == Some(
            preferred_range_expr(
                T::spec_prefix(),
                ideal.spec_text().unwrap(),
                bound_text(min, default_min),
                bound_text(max, default_max),
            ),
        ),
        encoded(Constrain::Range(ConstrainRange { min, max, ideal: None }), default_min, default_max)
            == Some(
            range_expr(T::spec_prefix(), bound_text(min, default_min), bound_text(max, default_max)),
        ),
{
}

/// Encoding depends on the constraint set and the media kind alone: two filters
/// encoded from equal inputs are equal.
pub proof fn lemma_encoding_deterministic(
    s1: MediaTrackConstraintSet,
    s2: MediaTrackConstraintSet,
    kind: MediaKind,
    f1: CapabilityFilter,
    f2: CapabilityFilter,
)
    requires
        s1 == s2,
        f1.media_kind == kind && f1.entries() == set_entries(s1),
        f2.media_kind == kind && f2.entries() == set_entries(s2),
    ensures
        f1.media_kind == f2.media_kind,
        f1.entries() == f2.entries(),
{
}

} // verus!
