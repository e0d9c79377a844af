use vstd::prelude::*;

verus! {

/// Why a numeral could not be read into a value.
#[derive(Clone, Copy, PartialEq, Eq, Debug, Structural)]
pub enum ParseError {
    /// The radix is neither 0 (the numeral's prefix decides) nor in 2..=62.
    UnsupportedRadix,
    /// The text is not a numeral in the radix.
    InvalidNumeral,
}

/// The radix to hand the engine for reading a numeral.
pub fn numeral_radix(radix: usize) -> (r: Result<i32, ParseError>)
    ensures
        radix == 0 || 2 <= radix <= 62 ==> r == Ok::<i32, ParseError>(radix as i32),
        !(radix == 0 || 2 <= radix <= 62) ==> r == Err::<i32, ParseError>(
            ParseError::UnsupportedRadix,
        ),
{
    if radix == 0 || (2 <= radix && radix <= 62) {
        Ok(radix as i32)
    } else {
        Err(ParseError::UnsupportedRadix)
    }
}

/// The outcome of reading a numeral, from the engine's status: 0 when the whole
/// text was a numeral.
pub fn numeral_status(status: i32) -> (r: Result<(), ParseError>)
    ensures
        status == 0 ==> r is Ok,
        status != 0 ==> r == Err::<(), ParseError>(ParseError::InvalidNumeral),
{
    if status == 0 {
        Ok(())
    } else {
        Err(ParseError::InvalidNumeral)
    }
}

/// The base to hand the engine for writing a value's digits, when it is one
/// that the engine writes (2..=62).
pub fn digit_base(base: u32) -> (r: Option<i32>)
    ensures
        2 <= base <= 62 ==> r == Some(base as i32),
        !(2 <= base <= 62) ==> r is None,
{
    if 2 <= base && base <= 62 {
        Some(base as i32)
    } else {
        None
    }
}

} // verus!
