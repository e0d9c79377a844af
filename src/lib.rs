//! A precision-aware facade over an arbitrary-precision floating-point engine:
//! precisions and their decimal equivalents, the rounding context, the
//! operand-reuse plan of the arithmetic operators, the format protocol, and the
//! decisions that surround the engine's conversions and comparisons.

pub mod builder;
pub mod convert;
pub mod dispatch;
pub mod flags;
pub mod format;
pub mod precision;
pub mod rounding_mode;
pub mod sign;
pub mod util;

pub use builder::{BigFloatBuilder, BigFloatBuilderWithPrec};
pub use convert::{digit_base, numeral_radix, numeral_status, ParseError};
pub use flags::Flags;
pub use precision::{bits_to_digits, digits_to_bits, Precision, ToPrecision, MAX_DIGITS};
pub use rounding_mode::{RoundingContext, RoundingMode};
pub use sign::{ordering_from_engine, sign_from_engine, Sign};
pub use util::{SliceSubsetsExt, Subset, Subsets};
