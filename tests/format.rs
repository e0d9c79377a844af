use mpfr::format::{
    rendered_buffer_len, strip_terminator, Case, Flag, Flags, Format, FormatOptions,
    RoundingMode as FormatRounding,
};
use mpfr::{RoundingContext, RoundingMode, SliceSubsetsExt, ToPrecision};

fn assert_formats(cases: &[(Format, Option<Case>, &str)]) {
    for &(f, c, e) in cases {
        let options = match c {
            Some(c) => FormatOptions::new(f).with_case(c),
            None => FormatOptions::new(f),
        };
        assert_eq!(e, &options.format_string()[..]);
    }
}

#[test]
fn test_format_and_case() {
    assert_formats(&[
        (Format::HexFloat, None, "%R*a"),
        (Format::Binary, None, "%R*b"),
        (Format::Fixed, None, "%R*f"),
        (Format::Scientific, None, "%R*e"),
        (Format::FixedOrScientific, None, "%R*g"),
    ]);

    assert_formats(&[
        (Format::HexFloat, Some(Case::Lower), "%R*a"),
        (Format::Binary, Some(Case::Lower), "%R*b"),
        (Format::Fixed, Some(Case::Lower), "%R*f"),
        (Format::Scientific, Some(Case::Lower), "%R*e"),
        (Format::FixedOrScientific, Some(Case::Lower), "%R*g"),
    ]);

    assert_formats(&[
        (Format::HexFloat, Some(Case::Upper), "%R*A"),
        (Format::Binary, Some(Case::Upper), "%R*b"),
        (Format::Fixed, Some(Case::Upper), "%R*F"),
        (Format::Scientific, Some(Case::Upper), "%R*E"),
        (Format::FixedOrScientific, Some(Case::Upper), "%R*G"),
    ]);
}

#[test]
fn test_flags() {
    let flags = [
        (Flags::of(Flag::AlternateForm), "#"),
        (Flags::of(Flag::ZeroPadded), "0"),
        (Flags::of(Flag::LeftAdjusted), "-"),
        (Flags::of(Flag::Blank), " "),
        (Flags::of(Flag::Sign), "+"),
    ];

    let mut subsets = flags.subsets();
    let mut n = 0;
    while let Some(mut subset) = subsets.next() {
        let mut fs = Flags::empty();
        let mut s = String::new();
        while let Some(&(f, c)) = subset.next() {
            fs = fs.union(f);
            s.push_str(c);
        }

        let expected_string = format!("%{}R*f", s);
        let actual_string = FormatOptions::new(Format::Fixed).with_flags(fs).format_string();
        assert_eq!(expected_string, actual_string);
        n += 1;
    }
    assert_eq!(32, n);
}

#[test]
fn test_width_and_precision() {
    let f = FormatOptions::new(Format::Fixed);
    assert_eq!("%10R*f", &f.with_width(10).format_string()[..]);
    assert_eq!("%.20R*f", &f.with_precision(20u32.digits()).format_string()[..]);
    assert_eq!(
        "%10.20R*f",
        &f.with_width(10).with_precision(20u32.digits()).format_string()[..]
    );
}

#[test]
fn format_string_of_signed_zero_padded_fixed() {
    let options = FormatOptions::new(Format::Fixed)
        .with_flags(Flags::of(Flag::Sign).union(Flags::of(Flag::ZeroPadded)))
        .with_width(12)
        .with_precision(3u32.digits());
    assert_eq!("%0+12.3R*f", options.format_string());
}

#[test]
fn flags_keep_their_fixed_order() {
    let options = FormatOptions::new(Format::Scientific)
        .with_flags(Flags::all())
        .with_case(Case::Upper)
        .with_width(0)
        .with_precision(0u32.digits());
    assert_eq!("%#0- +0.0R*E", options.format_string());
}

#[test]
fn without_width_and_precision_drop_them() {
    let options = FormatOptions::new(Format::Fixed)
        .with_width(7)
        .with_precision(100u32.bits())
        .without_width()
        .without_precision()
        .with_format(Format::FixedOrScientific);
    assert_eq!("%R*g", options.format_string());
    assert_eq!(None, options.width);
    assert_eq!(None, options.precision);
}

#[test]
fn with_precision_stores_whole_digits() {
    let options = FormatOptions::new(Format::Fixed).with_precision(53u32.bits());
    assert_eq!(Some(15), options.precision);
    assert_eq!("%.15R*f", options.format_string());
    assert_eq!("%4294967295R*f", FormatOptions::new(Format::Fixed).with_width(u32::MAX).format_string());
}

#[test]
fn flag_set_operations() {
    let e = Flags::empty();
    assert!(e.is_empty());
    assert!(!e.contains(Flag::Sign));
    let s = e.with(Flag::Sign);
    assert!(s.contains(Flag::Sign));
    assert!(!s.contains(Flag::Blank));
    assert!(!s.is_empty());
    let u = s.union(Flags::of(Flag::Blank));
    assert!(u.contains(Flag::Blank) && u.contains(Flag::Sign));
    assert!(!u.contains(Flag::AlternateForm));
    let a = Flags::all();
    assert!(a.contains(Flag::AlternateForm) && a.contains(Flag::LeftAdjusted));
}

#[test]
fn rounding_mode_of_options() {
    let mut context = RoundingContext::new();
    let global = FormatOptions::new(Format::Fixed);
    assert_eq!(RoundingMode::ToNearest, global.rounding_mode_in(&context));
    context.set(RoundingMode::Downwards);
    assert_eq!(RoundingMode::Downwards, global.rounding_mode_in(&context));
    let specific = global.with_rounding_mode(RoundingMode::Upwards);
    assert_eq!(RoundingMode::Upwards, specific.rounding_mode_in(&context));
    let back = specific.with_global_rounding_mode();
    assert_eq!(RoundingMode::Downwards, back.rounding_mode_in(&context));
}

#[test]
fn rendered_buffer_has_room_for_the_terminator() {
    assert_eq!(None, rendered_buffer_len(-1));
    assert_eq!(Some(1), rendered_buffer_len(0));
    assert_eq!(Some(13), rendered_buffer_len(12));
    assert_eq!(Some(i32::MAX as usize + 1), rendered_buffer_len(i32::MAX));
}

#[test]
fn strip_terminator_drops_one_trailing_zero_byte() {
    assert_eq!(b"+0012345.670".to_vec(), strip_terminator(b"+0012345.670\0".to_vec()));
    assert_eq!(b"12".to_vec(), strip_terminator(b"12".to_vec()));
    assert_eq!(Vec::<u8>::new(), strip_terminator(Vec::new()));
    assert_eq!(vec![0u8], strip_terminator(vec![0u8, 0u8]));
}

#[test]
fn format_rounding_choice_resolves() {
    let mut context = RoundingContext::new();
    assert_eq!(RoundingMode::ToNearest, FormatRounding::Global.resolve(&context));
    context.set(RoundingMode::TowardsZero);
    assert_eq!(RoundingMode::TowardsZero, FormatRounding::Global.resolve(&context));
    assert_eq!(
        RoundingMode::AwayFromZero,
        FormatRounding::Specific(RoundingMode::AwayFromZero).resolve(&context)
    );
}
