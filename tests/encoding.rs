use media_constraints::{
    into_i32, select_first, to_decimal, Constrain, ConstrainRange, ConstrainString, MediaKind,
    MediaTrackConstraintSet, NumericDomain, Rational,
};

fn range<T>(min: Option<T>, max: Option<T>, ideal: Option<T>) -> Constrain<T> {
    Constrain::Range(ConstrainRange { min, max, ideal })
}

fn pairs(set: MediaTrackConstraintSet, kind: MediaKind) -> Vec<(String, String)> {
    set.into_caps(kind).fields
}

fn pair(name: &str, expr: &str) -> (String, String) {
    (name.to_string(), expr.to_string())
}

#[test]
fn decimal_text_of_counts() {
    assert_eq!(to_decimal(0), "0");
    assert_eq!(to_decimal(7), "7");
    assert_eq!(to_decimal(1234), "1234");
    assert_eq!(to_decimal(u64::MAX), "18446744073709551615");
}

#[test]
fn into_i32_saturates() {
    assert_eq!(into_i32(0), 0);
    assert_eq!(into_i32(800), 800);
    assert_eq!(into_i32(2147483647), i32::MAX);
    assert_eq!(into_i32(2147483648), i32::MAX);
    assert_eq!(into_i32(u64::MAX), i32::MAX);
}

#[test]
fn integer_domain_writes_decimal() {
    assert_eq!(<u64 as NumericDomain>::prefix(), "");
    assert_eq!(640u64.format(), Some("640".to_string()));
    assert_eq!(0u64.format(), Some("0".to_string()));
}

#[test]
fn rational_domain_writes_fraction() {
    assert_eq!(<Rational as NumericDomain>::prefix(), "(fraction)");
    assert_eq!(Rational::new(30000, 1001).format(), Some("30000/1001".to_string()));
    assert_eq!(Rational::new(1, 1).format(), Some("1/1".to_string()));
}

#[test]
fn rational_domain_rejects_non_positive() {
    assert_eq!(Rational::new(-5, 1).format(), None);
    assert_eq!(Rational::new(0, 1).format(), None);
    assert_eq!(Rational::new(3, 0).format(), None);
    assert_eq!(Rational::new(3, -2).format(), None);
    assert_eq!(Constrain::Value(Rational::new(-5, 1)).encode("0/1", "10/1"), None);
}

#[test]
fn exact_values_take_the_prefix() {
    assert_eq!(Constrain::Value(640u64).encode("0", "9"), Some("640".to_string()));
    assert_eq!(
        Constrain::Value(Rational::new(30, 1)).encode("0/1", "10/1"),
        Some("(fraction)30/1".to_string())
    );
}

#[test]
fn integer_exact_round_trip() {
    for v in [0u64, 1, 9, 10, 1920, 100000000000000] {
        let e = Constrain::Value(v).encode("0", "100000000000000").unwrap();
        assert_eq!(e.parse::<u64>().unwrap(), v);
    }
}

#[test]
fn positive_rate_approximation_is_exact_fraction() {
    let e = Constrain::Value(Rational::new(25, 2)).encode("0/1", "10/1").unwrap();
    let text = e.strip_prefix("(fraction)").unwrap();
    let (n, d) = text.split_once('/').unwrap();
    let value = n.parse::<f64>().unwrap() / d.parse::<f64>().unwrap();
    assert!((value - 12.5).abs() < 1e-9);
}

#[test]
fn range_with_min_only_takes_default_max() {
    assert_eq!(
        range(Some(100u64), None, None).encode("0", "100000000000000"),
        Some("[100, 100000000000000]".to_string())
    );
    assert_eq!(
        pairs(
            MediaTrackConstraintSet { width: Some(range(Some(100), None, None)), ..Default::default() },
            MediaKind::Video
        ),
        vec![pair("width", "[100, 100000000000000]")]
    );
}

#[test]
fn range_with_max_only_takes_default_min() {
    assert_eq!(
        range(None, Some(1000u64), None).encode("0", "100000000000000"),
        Some("[0, 1000]".to_string())
    );
    assert_eq!(
        pairs(
            MediaTrackConstraintSet {
                frame_rate: Some(range(None, Some(Rational::new(60, 1)), None)),
                ..Default::default()
            },
            MediaKind::Video
        ),
        vec![pair("framerate", "(fraction)[0/1, 60/1]")]
    );
}

#[test]
fn ideal_gives_three_part_form() {
    assert_eq!(
        range(Some(100u64), Some(1000), Some(800)).encode("0", "9"),
        Some("{ 800, [100, 1000] }".to_string())
    );
    assert_eq!(
        range(Some(100u64), Some(1000), None).encode("0", "9"),
        Some("[100, 1000]".to_string())
    );
    assert_eq!(
        range(None, None, Some(Rational::new(30, 1))).encode("0/1", "10000000/1"),
        Some("(fraction){ 30/1, [0/1, 10000000/1] }".to_string())
    );
}

#[test]
fn rejected_ideal_keeps_the_range() {
    assert_eq!(
        range(Some(Rational::new(1, 1)), Some(Rational::new(60, 1)), Some(Rational::new(-1, 1)))
            .encode("0/1", "10000000/1"),
        Some("(fraction)[1/1, 60/1]".to_string())
    );
}

#[test]
fn rejected_bound_falls_back_to_default() {
    assert_eq!(
        range(Some(Rational::new(-3, 1)), Some(Rational::new(0, 1)), None)
            .encode("0/1", "10000/1"),
        Some("(fraction)[0/1, 10000/1]".to_string())
    );
}

#[test]
fn default_bounds_of_each_property() {
    let set = MediaTrackConstraintSet {
        width: Some(range(None, None, None)),
        height: Some(range(None, None, None)),
        aspect: Some(range(None, None, None)),
        frame_rate: Some(range(None, None, None)),
        sample_rate: Some(range(None, None, None)),
    };
    assert_eq!(
        pairs(set, MediaKind::Video),
        vec![
            pair("width", "[0, 100000000000000]"),
            pair("height", "[0, 100000000000000]"),
            pair("pixel-aspect-ratio", "(fraction)[0/1, 10000/1]"),
            pair("framerate", "(fraction)[0/1, 10000000/1]"),
            pair("rate", "(fraction)[0/1, 10000000/1]"),
        ]
    );
}

#[test]
fn encoding_twice_gives_the_same_filter() {
    let build = || MediaTrackConstraintSet {
        width: Some(range(Some(320), Some(1920), Some(1280))),
        height: Some(Constrain::Value(720)),
        aspect: Some(Constrain::Value(Rational::new(1, 1))),
        frame_rate: Some(range(Some(Rational::new(15, 1)), None, Some(Rational::new(30, 1)))),
        sample_rate: None,
    };
    let a = build().into_caps(MediaKind::Video);
    let b = build().into_caps(MediaKind::Video);
    assert_eq!(a.media_kind, b.media_kind);
    assert_eq!(a.fields, b.fields);
    assert_eq!(a.to_caps_string(), b.to_caps_string());
}

#[test]
fn width_range_with_ideal_filter() {
    let set = MediaTrackConstraintSet {
        width: Some(range(Some(100), Some(1000), Some(800))),
        ..Default::default()
    };
    let filter = set.into_caps(MediaKind::Video);
    assert_eq!(filter.media_kind, MediaKind::Video);
    assert_eq!(filter.fields, vec![pair("width", "{ 800, [100, 1000] }")]);
    assert_eq!(filter.to_caps_string(), "video/x-raw, width={ 800, [100, 1000] }");
}

#[test]
fn negative_frame_rate_is_left_out() {
    let set = MediaTrackConstraintSet {
        frame_rate: Some(Constrain::Value(Rational::new(-5, 1))),
        ..Default::default()
    };
    let filter = set.into_caps(MediaKind::Video);
    assert!(filter.fields.is_empty());
    assert_eq!(filter.to_caps_string(), "video/x-raw");
}

#[test]
fn rejected_property_leaves_the_others() {
    let set = MediaTrackConstraintSet {
        height: Some(Constrain::Value(480)),
        frame_rate: Some(Constrain::Value(Rational::new(-5, 1))),
        ..Default::default()
    };
    let filter = set.into_caps(MediaKind::Video);
    assert_eq!(filter.fields, vec![pair("height", "480")]);
    assert_eq!(filter.to_caps_string(), "video/x-raw, height=480");
}

#[test]
fn empty_audio_set_filter() {
    let filter = MediaTrackConstraintSet::empty().into_caps(MediaKind::Audio);
    assert_eq!(filter.media_kind, MediaKind::Audio);
    assert!(filter.fields.is_empty());
    assert_eq!(filter.to_caps_string(), "audio/x-raw");
    assert_eq!(select_first(vec!["mic-0", "mic-1"]), Some("mic-0"));
    assert_eq!(select_first(Vec::<&str>::new()), None);
}

#[test]
fn no_device_gives_none() {
    assert_eq!(select_first(Vec::<u32>::new()), None);
    assert_eq!(select_first(vec![7u32]), Some(7));
}

#[test]
fn sample_rate_in_audio_filter() {
    let set = MediaTrackConstraintSet {
        sample_rate: Some(Constrain::Value(Rational::new(48000, 1))),
        ..Default::default()
    };
    assert_eq!(
        set.into_caps(MediaKind::Audio).to_caps_string(),
        "audio/x-raw, rate=(fraction)48000/1"
    );
}

#[test]
fn media_kind_tags() {
    assert_eq!(MediaKind::Video.caps_name(), "video/x-raw");
    assert_eq!(MediaKind::Audio.caps_name(), "audio/x-raw");
    assert_eq!(MediaKind::Video.device_class(), "Video/Source");
    assert_eq!(MediaKind::Audio.device_class(), "Audio/Source");
}

#[test]
fn string_constraint_puts_ideal_first() {
    let c = ConstrainString {
        values: vec!["user".to_string(), "environment".to_string()],
        ideal: Some("left".to_string()),
    };
    assert_eq!(c.into_caps_string(), "[\"left\", \"user\", \"environment\"]");
}

#[test]
fn string_constraint_without_ideal() {
    let c = ConstrainString { values: vec!["a".to_string()], ideal: None };
    assert_eq!(c.into_caps_string(), "[\"a\"]");
    let e = ConstrainString { values: vec![], ideal: None };
    assert_eq!(e.into_caps_string(), "[]");
}

#[test]
fn string_constraint_quotes_and_escapes() {
    let c = ConstrainString { values: vec!["say \"hi\"\n".to_string()], ideal: None };
    let expected = format!("{:?}", vec!["say \"hi\"\n".to_string()]);
    assert_eq!(c.into_caps_string(), expected);
    assert_eq!(expected, "[\"say \\\"hi\\\"\\n\"]");
}
