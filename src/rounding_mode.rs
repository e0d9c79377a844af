use vstd::prelude::*;

verus! {

/// How an exact result is mapped to a representable value at a given precision.
#[derive(Clone, Copy, PartialEq, Eq, Debug, Structural)]
pub enum RoundingMode {
    ToNearest,
    TowardsZero,
    Upwards,
    Downwards,
    AwayFromZero,
}

/// The rounding mode that operations use when they are not given one.
///
/// A fresh context rounds to nearest. `set` replaces the mode; `with` installs a
/// mode for the length of one call and puts the previous one back afterwards.
#[derive(Clone, Copy, PartialEq, Eq, Debug, Structural)]
pub struct RoundingContext {
    mode: RoundingMode,
}

impl RoundingContext {
    /// The mode in effect.
    pub closed spec fn mode(&self) -> RoundingMode {
        self.mode
    }

    /// A context that rounds to nearest.
    pub fn new() -> (r: RoundingContext)
        ensures
            r.mode() == RoundingMode::ToNearest,
    {
        RoundingContext { mode: RoundingMode::ToNearest }
    }

    /// The mode in effect.
    pub fn get(&self) -> (r: RoundingMode)
        ensures
            r == self.mode(),
    {
        self.mode
    }

    /// Replaces the mode in effect.
    pub fn set(&mut self, mode: RoundingMode)
        ensures
            final(self).mode() == mode,
    {
        self.mode = mode;
    }

    /// Runs `f` on the context with `mode` in effect, then puts back the mode
    /// that was in effect before, whatever `f` returned (an error included).
    pub fn with<F, T>(&mut self, mode: RoundingMode, f: F) -> (r: T)
        where
            F: FnOnce(RoundingContext) -> T,
        requires
            forall|c: RoundingContext| c.mode() == mode ==> f.requires((c,)),
        ensures
            final(self).mode() == old(self).mode(),
            exists|c: RoundingContext| c.mode() == mode && f.ensures((c,), r),
    {
        let previous = self.mode;
        self.mode = mode;
        let current = *self;
        assert(f.requires((current,)));
        let r = f(current);
        assert(current.mode() == mode && f.ensures((current,), r));
        self.mode = previous;
        r
    }
}

impl RoundingMode {
    /// Runs `f` with this mode in effect in `context`; see `RoundingContext::with`.
    pub fn use_in<F, T>(self, context: &mut RoundingContext, f: F) -> (r: T)
        where
            F: FnOnce(RoundingContext) -> T,
        requires
            forall|c: RoundingContext| c.mode() == self ==> f.requires((c,)),
        ensures
            final(context).mode() == old(context).mode(),
            exists|c: RoundingContext| c.mode() == self && f.ensures((c,), r),
    {
        context.with(self, f)
    }
}

} // verus!
