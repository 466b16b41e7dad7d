use vstd::prelude::*;
use crate::constraint::{encoded, text_of, Constrain};
use crate::decimal::{decimal_text, to_decimal};
use crate::domain::{fraction_text, NumericDomain, Rational};

verus! {

/// Default upper bound of a pixel count.
pub const INTEGER_DEFAULT_MAX: u64 = 100000000000000;

/// Default upper bound of a pixel aspect ratio, as `ASPECT_DEFAULT_MAX/1`.
pub const ASPECT_DEFAULT_MAX: u64 = 10000;

/// Default upper bound of a frame rate or sample rate, as `RATE_DEFAULT_MAX/1`.
pub const RATE_DEFAULT_MAX: u64 = 10000000;

/// The kind of media track that a constraint set asks for.
#[derive(Clone, Copy, Debug, PartialEq, Eq)]
pub enum MediaKind {
    Audio,
    Video,
}

impl MediaKind {
    pub open spec fn spec_caps_name(self) -> Seq<char> {
        match self {
            MediaKind::Audio => "audio/x-raw"@,
            MediaKind::Video => "video/x-raw"@,
        }
    }

    pub open spec fn spec_device_class(self) -> Seq<char> {
        match self {
            MediaKind::Audio => "Audio/Source"@,
            MediaKind::Video => "Video/Source"@,
        }
    }

    /// The media-kind tag of a capability filter of this kind.
    pub fn caps_name(&self) -> (r: &'static str)
        ensures
            r@ == self.spec_caps_name(),
    {
        match self {
            MediaKind::Audio => "audio/x-raw",
            MediaKind::Video => "video/x-raw",
        }
    }

    /// The class of capture devices that provide this kind of media.
    pub fn device_class(&self) -> (r: &'static str)
        ensures
            r@ == self.spec_device_class(),
    {
        match self {
            MediaKind::Audio => "Audio/Source",
            MediaKind::Video => "Video/Source",
        }
    }
}

/// A capability filter: a media-kind tag and an ordered list of
/// (property name, expression) pairs.
pub struct CapabilityFilter {
    pub media_kind: MediaKind,
    pub fields: Vec<(String, String)>,
}

/// The text of a list of named expressions, each as `, name=expr`.
pub open spec fn fields_text(s: Seq<(Seq<char>, Seq<char>)>) -> Seq<char>
    decreases s.len(),
{
    if s.len() == 0 {
        Seq::empty()
    } else {
        fields_text(s.drop_last()) + ", "@ + s.last().0 + "="@ + s.last().1
    }
}

impl CapabilityFilter {
    /// The (name, expression) pairs of the filter, in order.
    pub open spec fn entries(self) -> Seq<(Seq<char>, Seq<char>)> {
        self.fields@.map_values(|p: (String, String)| (p.0@, p.1@))
    }

    /// An empty filter of the given kind.
    pub fn new(media_kind: MediaKind) -> (r: CapabilityFilter)
        ensures
            r.media_kind == media_kind,
            r.entries() == Seq::<(Seq<char>, Seq<char>)>::empty(),
    {
        let r = CapabilityFilter { media_kind, fields: Vec::new() };
        assert(r.entries() =~= Seq::<(Seq<char>, Seq<char>)>::empty());
        r
    }

    /// The filter in capability-string form: the media-kind tag followed by
    /// `, name=expr` for each pair.
    pub fn to_caps_string(&self) -> (r: String)
        ensures
            r@ == self.media_kind.spec_caps_name() + fields_text(self.entries()),
    {
        let mut s = String::from_str(self.media_kind.caps_name());
        let mut i: usize = 0;
        while i < self.fields.len()
            invariant
                i <= self.fields@.len(),
                s@ == self.media_kind.spec_caps_name() + fields_text(
                    self.entries().take(i as int),
                ),
            decreases self.fields@.len() - i,
        {
            let ghost before = s@;
            s.append(", ");
            s.append(self.fields[i].0.as_str());
            s.append("=");
            s.append(self.fields[i].1.as_str());
            proof {
                let t = self.entries().take(i as int + 1);
                assert(t.drop_last() =~= self.entries().take(i as int));
                assert(s@ =~= before + fields_text(t).subrange(
                    fields_text(t.drop_last()).len() as int,
                    fields_text(t).len() as int,
                ));
            }
            i = i + 1;
        }
        assert(self.entries().take(self.fields@.len() as int) =~= self.entries());
        s
    }
}


/// The entry that an optional constraint adds to a filter: none when it is
/// absent or its domain rejects it.
pub open spec fn entry<T: NumericDomain>(
    name: Seq<char>,
    c: Option<Constrain<T>>,
    default_min: Seq<char>,
    default_max: Seq<char>,
) -> Seq<(Seq<char>, Seq<char>)> {
    match c {
        Some(c) => match encoded(c, default_min, default_max) {
            Some(e) => seq![(name, e)],
            None => Seq::empty(),
        },
        None => Seq::empty(),
    }
}

/// Constraints on the properties of one media track. An absent property is
/// left out of the filter.
pub struct MediaTrackConstraintSet {
    pub width: Option<Constrain<u64>>,
    pub height: Option<Constrain<u64>>,
    pub aspect: Option<Constrain<Rational>>,
    pub frame_rate: Option<Constrain<Rational>>,
    pub sample_rate: Option<Constrain<Rational>>,
}

/// The default bounds of a pixel count, as text.
pub open spec fn integer_min_text() -> Seq<char> {
    decimal_text(0)
}

pub open spec fn integer_max_text() -> Seq<char> {
    decimal_text(INTEGER_DEFAULT_MAX as nat)
}

/// The default lower bound of a ratio or rate, `0/1`.
pub open spec fn fraction_min_text() -> Seq<char> {
    fraction_text(0, 1)
}

pub open spec fn aspect_max_text() -> Seq<char> {
    fraction_text(ASPECT_DEFAULT_MAX as nat, 1)
}

pub open spec fn rate_max_text() -> Seq<char> {
    fraction_text(RATE_DEFAULT_MAX as nat, 1)
}

/// The entries of the filter that a constraint set encodes to, in the order
/// width, height, pixel-aspect-ratio, framerate, rate.
pub open spec fn set_entries(s: MediaTrackConstraintSet) -> Seq<(Seq<char>, Seq<char>)> {
    entry("width"@, s.width, integer_min_text(), integer_max_text()) + entry(
        "height"@,
        s.height,
        integer_min_text(),
        integer_max_text(),
    ) + entry("pixel-aspect-ratio"@, s.aspect, fraction_min_text(), aspect_max_text()) + entry(
        "framerate"@,
        s.frame_rate,
        fraction_min_text(),
        rate_max_text(),
    ) + entry("rate"@, s.sample_rate, fraction_min_text(), rate_max_text())
}

/// `n/1`.
fn whole_fraction(n: u64) -> (r: String)
    ensures
        r@ == fraction_text(n as nat, 1),
{
    let mut s = to_decimal(n);
    proof {
        reveal_strlit("/");
    }
    s.append("/");
    let d = to_decimal(1);
    s.append(d.as_str());
    s
}

impl<T: NumericDomain> Constrain<T> {
    /// Appends `(name, expression)` to the filter, or leaves it as it is when
    /// the domain rejects the constraint.
    pub fn add_to_caps(self, name: &str, min: &str, max: &str, filter: &mut CapabilityFilter)
        ensures
            final(filter).media_kind == old(filter).media_kind,
            final(filter).entries() == old(filter).entries() + entry(
                name@,
                Some(self),
                min@,
                max@,
            ),
    {
        let ghost e = encoded(self, min@, max@);
        match self.encode(min, max) {
            Some(expr) => {
                let pair = (String::from_str(name), expr);
                filter.fields.push(pair);
                assert(final(filter).entries() =~= old(filter).entries() + seq![(name@, e.unwrap())]);
            },
            None => {
                assert(old(filter).entries() + entry(name@, Some(self), min@, max@)
                    =~= old(filter).entries());
            },
        }
    }
}

fn add_optional<T: NumericDomain>(
    c: Option<Constrain<T>>,
    name: &str,
    min: &str,
    max: &str,
    filter: &mut CapabilityFilter,
)
    ensures
        final(filter).media_kind == old(filter).media_kind,
        final(filter).entries() == old(filter).entries() + entry(name@, c, min@, max@),
{
    match c {
        Some(c) => c.add_to_caps(name, min, max, filter),
        None => {
            assert(old(filter).entries() + entry(name@, c, min@, max@) =~= old(filter).entries());
        },
    }
}

impl Default for MediaTrackConstraintSet {
    fn default() -> (r: MediaTrackConstraintSet)
        ensures
            r.width.is_none(),
            r.height.is_none(),
            r.aspect.is_none(),
            r.frame_rate.is_none(),
            r.sample_rate.is_none(),
    {
        MediaTrackConstraintSet::empty()
    }
}

impl MediaTrackConstraintSet {
    /// A set with no constraint.
    pub fn empty() -> (r: MediaTrackConstraintSet)
        ensures
            r.width.is_none(),
            r.height.is_none(),
            r.aspect.is_none(),
            r.frame_rate.is_none(),
            r.sample_rate.is_none(),
    {
        MediaTrackConstraintSet {
            width: None,
            height: None,
            aspect: None,
            frame_rate: None,
            sample_rate: None,
        }
    }

    /// Encodes the set as a capability filter of the given kind. Each present
    /// property is encoded with its default bounds; one whose exact value its
    /// domain rejects is left out, and the rest of the filter still stands.
    pub fn into_caps(self, kind: MediaKind) -> (r: CapabilityFilter)
        ensures
            r.media_kind == kind,
            r.entries() == set_entries(self),
    {
        let ghost s = self;
        let int_min = to_decimal(0);
        let int_max = to_decimal(INTEGER_DEFAULT_MAX);
        let frac_min = whole_fraction(0);
        let aspect_max = whole_fraction(ASPECT_DEFAULT_MAX);
        let rate_max = whole_fraction(RATE_DEFAULT_MAX);
        let mut filter = CapabilityFilter::new(kind);
        add_optional(self.width, "width", int_min.as_str(), int_max.as_str(), &mut filter);
        add_optional(self.height, "height", int_min.as_str(), int_max.as_str(), &mut filter);
        add_optional(
            self.aspect,
            "pixel-aspect-ratio",
            frac_min.as_str(),
            aspect_max.as_str(),
            &mut filter,
        );
        add_optional(
            self.frame_rate,
            "framerate",
            frac_min.as_str(),
            rate_max.as_str(),
            &mut filter,
        );
        add_optional(self.sample_rate, "rate", frac_min.as_str(), rate_max.as_str(), &mut filter);
        assert(filter.entries() =~= set_entries(s));
        filter
    }
}

} // verus!
