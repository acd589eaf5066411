//! The capability traits behind the uniform `project()` operation.
//!
//! The generated code implements [`OptionProjectable`] once per ownership
//! mode of an annotated record, fixing the projected type as the associated
//! type. The generic [`Projectable`] implementations below are emitted once,
//! not per record: they forward `project()` on the optional source to the
//! specific implementation, so the whole dispatch resolves at compile time.

use vstd::prelude::*;

verus! {

/// Implemented for `T` where a projection can be created for `Option<T>`.
pub trait OptionProjectable: Sized {
    type P;

    fn project(f: Option<Self>) -> Self::P;
}

/// Reserved counterpart of [`OptionProjectable`] for a result-projection
/// family; nothing is generated for it.
pub trait ResultProjectable<E>: Sized {
    type P;

    fn project(f: Result<Self, E>) -> Self::P;
}

/// Provides `.project()` on the optional source itself.
pub trait Projectable {
    type P;

    fn project(self) -> Self::P;
}

impl<T: OptionProjectable> Projectable for Option<T> {
    type P = <T as OptionProjectable>::P;

    /// Delegates to the specific implementation exactly once, passing the
    /// optional source unchanged: whatever that implementation promises of
    /// its argument and result holds here of `self` and the result.
    fn project(self) -> (r: <T as OptionProjectable>::P)
        ensures
            call_ensures(<T as OptionProjectable>::project, (self,), r),
    {
        OptionProjectable::project(self)
    }
}

impl<E, T: ResultProjectable<E>> Projectable for Result<T, E> {
    type P = <T as ResultProjectable<E>>::P;

    /// Delegates to the specific implementation exactly once, passing the
    /// source unchanged, as on the optional side.
    fn project(self) -> (r: <T as ResultProjectable<E>>::P)
        ensures
            call_ensures(<T as ResultProjectable<E>>::project, (self,), r),
    {
        ResultProjectable::project(self)
    }
}

} // verus!
