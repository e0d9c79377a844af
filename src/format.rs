use vstd::prelude::*;

use crate::precision::{digits_of_bits, Precision};
use crate::rounding_mode::RoundingContext;

verus! {

/// How a value is written out.
#[derive(Clone, Copy, PartialEq, Eq, Debug, Structural)]
pub enum Format {
    HexFloat,
    Binary,
    Fixed,
    Scientific,
    FixedOrScientific,
}

/// Whether letters in the output are lower or upper case.
#[derive(Clone, Copy, PartialEq, Eq, Debug, Structural)]
pub enum Case {
    Lower,
    Upper,
}

/// Which rounding mode a format uses: a given one, or the one in effect.
#[derive(Clone, Copy, PartialEq, Eq, Debug, Structural)]
pub enum RoundingMode {
    Specific(crate::rounding_mode::RoundingMode),
    Global,
}

impl RoundingMode {
    /// The rounding mode this choice stands for in `context`.
    pub fn resolve(self, context: &RoundingContext) -> (r: crate::rounding_mode::RoundingMode)
        ensures
            r == match self {
                RoundingMode::Specific(m) => m,
                RoundingMode::Global => context.mode(),
            },
    {
        match self {
            RoundingMode::Specific(m) => m,
            RoundingMode::Global => context.get(),
        }
    }
}

/// One printf-style flag.
#[derive(Clone, Copy, PartialEq, Eq, Debug, Structural)]
pub enum Flag {
    AlternateForm,
    ZeroPadded,
    LeftAdjusted,
    Blank,
    Sign,
}

/// A set of printf-style flags.
#[derive(Clone, Copy, PartialEq, Eq, Debug, Structural)]
pub struct Flags {
    pub alternate_form: bool,
    pub zero_padded: bool,
    pub left_adjusted: bool,
    pub blank: bool,
    pub sign: bool,
}

impl Flags {
    /// Whether `flag` is in the set.
    pub open spec fn has(&self, flag: Flag) -> bool {
        match flag {
            Flag::AlternateForm => self.alternate_form,
            Flag::ZeroPadded => self.zero_padded,
            Flag::LeftAdjusted => self.left_adjusted,
            Flag::Blank => self.blank,
            Flag::Sign => self.sign,
        }
    }

    /// The empty set.
    pub fn empty() -> (r: Flags)
        ensures
            forall|f: Flag| !r.has(f),
    {
        Flags {
            alternate_form: false,
            zero_padded: false,
            left_adjusted: false,
            blank: false,
            sign: false,
        }
    }

    /// The set of all five flags.
    pub fn all() -> (r: Flags)
        ensures
            forall|f: Flag| r.has(f),
    {
        Flags { alternate_form: true, zero_padded: true, left_adjusted: true, blank: true, sign: true }
    }

    /// The set that holds `flag` alone.
    pub fn of(flag: Flag) -> (r: Flags)
        ensures
            forall|f: Flag| r.has(f) == (f == flag),
    {
        Flags::empty().with(flag)
    }

    /// This set with `flag` added.
    pub fn with(self, flag: Flag) -> (r: Flags)
        ensures
            forall|f: Flag| r.has(f) == (self.has(f) || f == flag),
    {
        let mut r = self;
        match flag {
            Flag::AlternateForm => r.alternate_form = true,
            Flag::ZeroPadded => r.zero_padded = true,
            Flag::LeftAdjusted => r.left_adjusted = true,
            Flag::Blank => r.blank = true,
            Flag::Sign => r.sign = true,
        }
        r
    }

    /// The flags that are in either set.
    pub fn union(self, other: Flags) -> (r: Flags)
        ensures
            forall|f: Flag| r.has(f) == (self.has(f) || other.has(f)),
    {
        Flags {
            alternate_form: self.alternate_form || other.alternate_form,
            zero_padded: self.zero_padded || other.zero_padded,
            left_adjusted: self.left_adjusted || other.left_adjusted,
            blank: self.blank || other.blank,
            sign: self.sign || other.sign,
        }
    }

    /// Whether `flag` is in the set.
    pub fn contains(&self, flag: Flag) -> (r: bool)
        ensures
            r == self.has(flag),
    {
        match flag {
            Flag::AlternateForm => self.alternate_form,
            Flag::ZeroPadded => self.zero_padded,
            Flag::LeftAdjusted => self.left_adjusted,
            Flag::Blank => self.blank,
            Flag::Sign => self.sign,
        }
    }

    /// Whether the set is empty.
    pub fn is_empty(&self) -> (r: bool)
        ensures
            r == forall|f: Flag| !self.has(f),
    {
        let r = !(self.alternate_form || self.zero_padded || self.left_adjusted || self.blank
            || self.sign);
        proof {
            if !r {
                if self.alternate_form {
                    assert(self.has(Flag::AlternateForm));
                } else if self.zero_padded {
                    assert(self.has(Flag::ZeroPadded));
                } else if self.left_adjusted {
                    assert(self.has(Flag::LeftAdjusted));
                } else if self.blank {
                    assert(self.has(Flag::Blank));
                } else {
                    assert(self.has(Flag::Sign));
                }
            }
        }
        r
    }
}

/// The character that a printf flag is written as.
pub open spec fn flag_char(flag: Flag) -> char {
    match flag {
        Flag::AlternateForm => '#',
        Flag::ZeroPadded => '0',
        Flag::LeftAdjusted => '-',
        Flag::Blank => ' ',
        Flag::Sign => '+',
    }
}

/// `flag`'s character if it is in `flags`, else nothing.
pub open spec fn flag_text(flags: Flags, flag: Flag) -> Seq<char> {
    if flags.has(flag) {
        seq![flag_char(flag)]
    } else {
        Seq::empty()
    }
}

/// The flags of a set in their fixed order: alternate form, zero padding, left
/// adjustment, blank, sign.
pub open spec fn flags_text(flags: Flags) -> Seq<char> {
    flag_text(flags, Flag::AlternateForm) + flag_text(flags, Flag::ZeroPadded) + flag_text(
        flags,
        Flag::LeftAdjusted,
    ) + flag_text(flags, Flag::Blank) + flag_text(flags, Flag::Sign)
}

/// The decimal digit `d`.
pub open spec fn digit_char(d: nat) -> char {
    if d == 0 {
        '0'
    } else if d == 1 {
        '1'
    } else if d == 2 {
        '2'
    } else if d == 3 {
        '3'
    } else if d == 4 {
        '4'
    } else if d == 5 {
        '5'
    } else if d == 6 {
        '6'
    } else if d == 7 {
        '7'
    } else if d == 8 {
        '8'
    } else {
        '9'
    }
}

/// `n` written in decimal, without leading zeros.
pub open spec fn decimal(n: nat) -> Seq<char>
    decreases n,
{
    if n < 10 {
        seq![digit_char(n)]
    } else {
        decimal(n / 10) + seq![digit_char(n % 10)]
    }
}

/// The conversion letter of a format in a case; binary has no upper-case letter.
pub open spec fn conversion_char(format: Format, case: Case) -> char {
    match (format, case) {
        (Format::HexFloat, Case::Lower) => 'a',
        (Format::HexFloat, Case::Upper) => 'A',
        (Format::Binary, _) => 'b',
        (Format::Fixed, Case::Lower) => 'f',
        (Format::Fixed, Case::Upper) => 'F',
        (Format::Scientific, Case::Lower) => 'e',
        (Format::Scientific, Case::Upper) => 'E',
        (Format::FixedOrScientific, Case::Lower) => 'g',
        (Format::FixedOrScientific, Case::Upper) => 'G',
    }
}

/// The options of a formatted rendering of a value.
#[derive(Clone, Copy, PartialEq, Eq, Debug, Structural)]
pub struct FormatOptions {
    pub format: Format,
    pub flags: Flags,
    pub case: Case,
    pub rounding_mode: RoundingMode,
    pub width: Option<u32>,
    pub precision: Option<u32>,
}

/// The width part of a format string: the width in decimal, if there is one.
pub open spec fn width_text(width: Option<u32>) -> Seq<char> {
    match width {
        Some(w) => decimal(w as nat),
        None => Seq::empty(),
    }
}

/// The precision part of a format string: `.` and the precision in decimal, if
/// there is one.
pub open spec fn precision_text(precision: Option<u32>) -> Seq<char> {
    match precision {
        Some(p) => seq!['.'] + decimal(p as nat),
        None => Seq::empty(),
    }
}

/// The engine's format string for `options`: `%`, the flags, the width, `.`
/// and the precision, `R*` (the rounding mode comes as an argument), and the
/// conversion letter.
pub open spec fn format_text(options: FormatOptions) -> Seq<char> {
    seq!['%'] + flags_text(options.flags) + width_text(options.width) + precision_text(
        options.precision,
    ) + seq!['R', '*', conversion_char(options.format, options.case)]
}

impl FormatOptions {
    /// Options for `format`, with no flags, lower case, the rounding mode in
    /// effect, and no width or precision.
    pub fn new(format: Format) -> (r: FormatOptions)
        ensures
            r.format == format,
            forall|f: Flag| !r.flags.has(f),
            r.case == Case::Lower,
            r.rounding_mode == RoundingMode::Global,
            r.width is None,
            r.precision is None,
    {
        FormatOptions {
            format,
            flags: Flags::empty(),
            case: Case::Lower,
            rounding_mode: RoundingMode::Global,
            width: None,
            precision: None,
        }
    }

    pub fn with_format(self, format: Format) -> (r: FormatOptions)
        ensures
            r == (FormatOptions { format, ..self }),
    {
        FormatOptions { format, ..self }
    }

    pub fn with_flags(self, flags: Flags) -> (r: FormatOptions)
        ensures
            r == (FormatOptions { flags, ..self }),
    {
        FormatOptions { flags, ..self }
    }

    pub fn with_case(self, case: Case) -> (r: FormatOptions)
        ensures
            r == (FormatOptions { case, ..self }),
    {
        FormatOptions { case, ..self }
    }

    /// These options with a given rounding mode.
    pub fn with_rounding_mode(self, mode: crate::rounding_mode::RoundingMode) -> (r: FormatOptions)
        ensures
            r == (FormatOptions { rounding_mode: RoundingMode::Specific(mode), ..self }),
    {
        FormatOptions { rounding_mode: RoundingMode::Specific(mode), ..self }
    }

    /// These options with the rounding mode in effect when formatting.
    pub fn with_global_rounding_mode(self) -> (r: FormatOptions)
        ensures
            r == (FormatOptions { rounding_mode: RoundingMode::Global, ..self }),
    {
        FormatOptions { rounding_mode: RoundingMode::Global, ..self }
    }

    pub fn with_width(self, width: u32) -> (r: FormatOptions)
        ensures
            r == (FormatOptions { width: Some(width), ..self }),
    {
        FormatOptions { width: Some(width), ..self }
    }

    pub fn without_width(self) -> (r: FormatOptions)
        ensures
            r == (FormatOptions { width: None, ..self }),
    {
        FormatOptions { width: None, ..self }
    }

    /// These options with as many decimal digits after the point as `precision`
    /// holds.
    pub fn with_precision(self, precision: Precision) -> (r: FormatOptions)
        ensures
            r == (FormatOptions {
                precision: Some(digits_of_bits(precision@) as u32),
                ..self
            }),
    {
        FormatOptions { precision: Some(precision.digits()), ..self }
    }

    pub fn without_precision(self) -> (r: FormatOptions)
        ensures
            r == (FormatOptions { precision: None, ..self }),
    {
        FormatOptions { precision: None, ..self }
    }

    /// The engine's format string for these options.
    pub fn format_string(&self) -> (r: String)
        ensures
            r@ == format_text(*self),
    {
        let mut text: Vec<char> = Vec::new();
        text.push('%');
        push_flags(&mut text, self.flags);
        push_width(&mut text, self.width);
        push_precision(&mut text, self.precision);
        let ghost rest = text@;
        text.push('R');
        text.push('*');
        text.push(conversion_letter(self.format, self.case));
        assert(text@ =~= rest + seq!['R', '*', conversion_char(self.format, self.case)]);
        assert(text@ =~= format_text(*self));
        string_from_chars(text)
    }

    /// The rounding mode that formatting with these options uses in `context`.
    pub fn rounding_mode_in(&self, context: &RoundingContext) -> (r:
        crate::rounding_mode::RoundingMode)
        ensures
            r == match self.rounding_mode {
                RoundingMode::Specific(m) => m,
                RoundingMode::Global => context.mode(),
            },
    {
        self.rounding_mode.resolve(context)
    }
}

fn push_flags(text: &mut Vec<char>, flags: Flags)
    ensures
        final(text)@ == old(text)@ + flags_text(flags),
{
    let ghost start = text@;
    if flags.alternate_form {
        text.push('#');
    }
    if flags.zero_padded {
        text.push('0');
    }
    if flags.left_adjusted {
        text.push('-');
    }
    if flags.blank {
        text.push(' ');
    }
    if flags.sign {
        text.push('+');
    }
    assert(text@ =~= start + flags_text(flags));
}

fn push_width(text: &mut Vec<char>, width: Option<u32>)
    ensures
        final(text)@ == old(text)@ + width_text(width),
{
    match width {
        Some(w) => push_decimal(text, w),
        None => {
            assert(text@ =~= text@ + width_text(width));
        },
    }
}

fn push_precision(text: &mut Vec<char>, precision: Option<u32>)
    ensures
        final(text)@ == old(text)@ + precision_text(precision),
{
    let ghost start = text@;
    match precision {
        Some(p) => {
            text.push('.');
            push_decimal(text, p);
            assert(text@ =~= start + precision_text(precision));
        },
        None => {
            assert(text@ =~= start + precision_text(precision));
        },
    }
}

fn digit(d: u32) -> (c: char)
    requires
        d < 10,
    ensures
        c == digit_char(d as nat),
{
    if d == 0 {
        '0'
    } else if d == 1 {
        '1'
    } else if d == 2 {
        '2'
    } else if d == 3 {
        '3'
    } else if d == 4 {
        '4'
    } else if d == 5 {
        '5'
    } else if d == 6 {
        '6'
    } else if d == 7 {
        '7'
    } else if d == 8 {
        '8'
    } else {
        '9'
    }
}

fn push_decimal(text: &mut Vec<char>, n: u32)
    ensures
        final(text)@ == old(text)@ + decimal(n as nat),
    decreases n,
{
    let ghost start = text@;
    if n >= 10 {
        push_decimal(text, n / 10);
    }
    text.push(digit(n % 10));
    assert(text@ =~= start + decimal(n as nat));
}

fn conversion_letter(format: Format, case: Case) -> (c: char)
    ensures
        c == conversion_char(format, case),
{
    match (format, case) {
        (Format::HexFloat, Case::Lower) => 'a',
        (Format::HexFloat, Case::Upper) => 'A',
        (Format::Binary, _) => 'b',
        (Format::Fixed, Case::Lower) => 'f',
        (Format::Fixed, Case::Upper) => 'F',
        (Format::Scientific, Case::Lower) => 'e',
        (Format::Scientific, Case::Upper) => 'E',
        (Format::FixedOrScientific, Case::Lower) => 'g',
        (Format::FixedOrScientific, Case::Upper) => 'G',
    }
}

/// Relies on `String`'s `FromIterator<char>`: the string holds the characters
/// in order.
#[verifier::external_body]
fn string_from_chars(chars: Vec<char>) -> (r: String)
    ensures
        r@ == chars@,
{
    chars.into_iter().collect()
}

/// The size of the buffer to render into, given the length that the engine
/// reported for the text: one more, for the terminating zero byte. `None` when
/// the engine reported a failure (a negative length).
pub fn rendered_buffer_len(reported: i32) -> (r: Option<usize>)
    ensures
        reported < 0 ==> r is None,
        reported >= 0 ==> r == Some((reported + 1) as usize),
{
    if reported < 0 {
        None
    } else {
        Some(reported as usize + 1)
    }
}

/// The rendered text without the terminating zero byte, if it ends in one.
pub fn strip_terminator(bytes: Vec<u8>) -> (r: Vec<u8>)
    ensures
        bytes@.len() > 0 && bytes@.last() == 0 ==> r@ == bytes@.drop_last(),
        !(bytes@.len() > 0 && bytes@.last() == 0) ==> r@ == bytes@,
{
    let mut r = bytes;
    let n = r.len();
    if n > 0 && r[n - 1] == 0 {
        r.pop();
    }
    r
}

} // verus!
