use vstd::prelude::*;

verus! {

/// The engine's sticky exception flags. Each is raised by the engine as a side
/// effect of an operation and stays raised until it is cleared.
#[derive(Clone, Copy, PartialEq, Eq, Debug, Structural)]
pub enum Flags {
    Underflow,
    Overflow,
    DivByZero,
    Nan,
    Inexact,
    Erange,
}

} // verus!
