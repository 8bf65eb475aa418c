//! A value that is built when it is first needed.

use vstd::prelude::*;

verus! {

/// Either a builder that has not run yet, or the value it built.
///
/// `Uninitialized(None)` is what is left while the builder runs. If the builder panics, that is
/// left for good: the cell is not `buildable` then, so `get_mut` may not be called any more.
pub enum BuildOnAccess<R, F> {
    Uninitialized(Option<F>),
    Initialized(R),
}

impl<R, F: FnOnce() -> R> BuildOnAccess<R, F> {
    /// There is a value, or a builder that may be run.
    pub open spec fn buildable(self) -> bool {
        match self {
            Self::Uninitialized(Some(builder)) => call_requires(builder, ()),
            Self::Uninitialized(None) => false,
            Self::Initialized(_) => true,
        }
    }

    /// `value` is what an access may find: the value that is there, or one that the builder
    /// returns.
    pub open spec fn yields(self, value: R) -> bool {
        match self {
            Self::Uninitialized(Some(builder)) => call_ensures(builder, (), value),
            Self::Uninitialized(None) => false,
            Self::Initialized(present) => present == value,
        }
    }

    /// Gives access to the value, and builds it first where that has not happened yet.
    ///
    /// From then on the cell holds whatever the caller leaves behind the reference.
    pub fn get_mut(&mut self) -> (value: &mut R)
        requires
            old(self).buildable(),
        ensures
            old(self).yields(*value),
            match *old(self) {
                Self::Uninitialized(Some(builder)) => call_ensures(builder, (), *value),
                Self::Uninitialized(None) => false,
                Self::Initialized(present) => *value == present,
            },
            *final(self) == Self::Initialized(*final(value)),
    {
        loop
            invariant
                self.buildable(),
                forall|value: R| self.yields(value) ==> old(self).yields(value),
            decreases (if *self is Uninitialized { 1int } else { 0int }),
        {
            match self {
                Self::Uninitialized(slot) => {
                    let builder = slot.take().unwrap();
                    *self = Self::Initialized(builder());
                },
                Self::Initialized(value) => return value,
            }
        }
    }
}

/// An access never builds twice: whatever value an earlier access left in the cell, that very
/// value and no other is what the next access finds, and it may always be made.
pub proof fn law_built_at_most_once<R, F: FnOnce() -> R>(
    cell: BuildOnAccess<R, F>,
    left: R,
    found: R,
)
    requires
        cell == BuildOnAccess::<R, F>::Initialized(left),
    ensures
        cell.buildable(),
        cell.yields(found) <==> found == left,
{
}

/// An access to a builder that has not run yet finds what the builder returns, and may be made
/// where the builder may be run, and only there. None may be made once the builder is gone.
pub proof fn law_unbuilt_finds_what_is_built<R, F: FnOnce() -> R>(builder: F, found: R)
    ensures
        ({
            let unbuilt = BuildOnAccess::<R, F>::Uninitialized(Some(builder));
            let gone = BuildOnAccess::<R, F>::Uninitialized(None);
            &&& unbuilt.buildable() <==> call_requires(builder, ())
            &&& unbuilt.yields(found) <==> call_ensures(builder, (), found)
            &&& !gone.buildable()
            &&& !gone.yields(found)
        }),
{
}

} // verus!
