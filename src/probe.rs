use vstd::prelude::*;

verus! {

/// A one-shot probe that, given an argument, either produces an output or
/// reports that there is none.
///
/// Every `FnOnce(T) -> Option<O>` is such a probe; its contract is then the
/// closure's own `requires` and `ensures`.
pub trait FnOnceReturningOption<T>: Sized {
    type Output;

    /// The probe may be called on `arg`.
    spec fn accepts(self, arg: T) -> bool;

    /// `out` is a possible result of calling the probe on `arg`.
    spec fn gives(self, arg: T, out: Option<Self::Output>) -> bool;

    fn call(self, arg: T) -> (out: Option<Self::Output>)
        requires
            self.accepts(arg),
        ensures
            self.gives(arg, out),
    ;
}

impl<T, F, O> FnOnceReturningOption<T> for F where F: FnOnce(T) -> Option<O> {
    type Output = O;

    open spec fn accepts(self, arg: T) -> bool {
        call_requires(self, (arg,))
    }

    open spec fn gives(self, arg: T, out: Option<O>) -> bool {
        call_ensures(self, (arg,), out)
    }

    fn call(self, arg: T) -> (out: Option<O>) {
        // The trait's spec functions are unfolded to this impl's definitions.
        assert(self.accepts(arg) == call_requires(self, (arg,)));
        let ghost f = self;
        let out = self(arg);
        assert(f.gives(arg, out) == call_ensures(f, (arg,), out));
        out
    }
}

} // verus!
