use vstd::prelude::*;
use crate::probe::FnOnceReturningOption;

verus! {

/// Narrowing of an exclusive handle, available on every sized type.
///
/// Each method takes `&'a mut self`, a probe `f` and a projection `project`.
/// The probe is called exactly once, on a temporary exclusive view of the
/// owner that ends when the probe returns; it may change the owner, and it
/// reports either `Some(k)`, where `k` says where the target is, or `None`.
/// On `Some(k)` the projection receives the original handle together with `k`
/// and re-acquires the target for the whole of `'a`; that is the `Ok` result.
/// On `None` the original handle itself is the `Err` result.
///
/// The probe is typed `FnOnce(&mut Self) -> Option<K>` for a `K` chosen at the
/// call, so it works for any lifetime of its view and what it reports cannot
/// borrow from that view: the compiler rejects a probe that lets a reference
/// escape. Taken by value as `FnOnce`, it cannot be called a second time.
///
/// In the contracts, a probe outcome is written with a reference `m` to the
/// owner: `*m` is the owner before the probe and `*final(m)` the owner as the
/// probe left it. Both requirements are only about the outcomes that can
/// arise from the owner as it was at the call.
pub trait PoloniusExt: Sized {
    /// Narrows to a shared view: `Ok` holds the reference that `project`
    /// gives on the owner as the probe left it, and the owner stays as the
    /// probe left it; `Err` gives the owner back as the probe left it.
    fn try_get_with<'a, K, R: ?Sized, F, P>(&'a mut self, f: F, project: P) -> (r: Result<&'a R, &'a mut Self>)
        where
            F: FnOnce(&mut Self) -> Option<K>,
            P: FnOnce(&'a Self, K) -> &'a R,
        requires
            forall|m: &mut Self| *m == *old(self) ==> call_requires(f, (m,)),
            forall|m: &mut Self, k: K|
                *m == *old(self) && call_ensures(f, (m,), Some(k))
                    ==> call_requires(project, (&*final(m), k)),
        ensures
            match r {
                Ok(x) => exists|m: &mut Self, k: K|
                    *m == *old(self) && call_ensures(f, (m,), Some(k))
                        && *final(self) == *final(m) && call_ensures(project, (&*final(m), k), x),
                Err(h) => exists|m: &mut Self|
                    *m == *old(self) && *h == *final(m) && call_ensures(f, (m,), None)
                        && *final(h) == *final(self),
            },
    {
        match f.call(self) {
            Some(k) => Ok(project(self, k)),
            None => Err(self),
        }
    }

    /// Narrows to an exclusive view: `Ok` holds the reference that `project`
    /// gives on the owner as the probe left it, and what is written through
    /// the projection's handle is what the owner ends up as; `Err` gives the
    /// owner back as the probe left it.
    fn try_get_mut_with<'a, K, R: ?Sized, F, P>(&'a mut self, f: F, project: P) -> (r: Result<&'a mut R, &'a mut Self>)
        where
            F: FnOnce(&mut Self) -> Option<K>,
            P: FnOnce(&'a mut Self, K) -> &'a mut R,
        requires
            forall|m: &mut Self| *m == *old(self) ==> call_requires(f, (m,)),
            forall|m: &mut Self, p: &mut Self, k: K|
                *m == *old(self) && *p == *final(m) && call_ensures(f, (m,), Some(k))
                    ==> call_requires(project, (p, k)),
        ensures
            match r {
                Ok(x) => exists|m: &mut Self, p: &mut Self, k: K|
                    *m == *old(self) && *p == *final(m) && call_ensures(f, (m,), Some(k))
                        && *final(p) == *final(self) && call_ensures(project, (p, k), x),
                Err(h) => exists|m: &mut Self|
                    *m == *old(self) && *h == *final(m) && call_ensures(f, (m,), None)
                        && *final(h) == *final(self),
            },
    {
        match f.call(self) {
            Some(k) => Ok(project(self, k)),
            None => Err(self),
        }
    }

    /// Narrows to a value of any type `T`, which may hold references into the
    /// owner: `Ok` holds what `project` gives on the owner as the probe left
    /// it, and what is written through the projection's handle is what the
    /// owner ends up as; `Err` gives the owner back as the probe left it.
    fn try_get_with2<'a, K, T, F, P>(&'a mut self, f: F, project: P) -> (r: Result<T, &'a mut Self>)
        where
            F: FnOnce(&mut Self) -> Option<K>,
            P: FnOnce(&'a mut Self, K) -> T,
        requires
            forall|m: &mut Self| *m == *old(self) ==> call_requires(f, (m,)),
            forall|m: &mut Self, p: &mut Self, k: K|
                *m == *old(self) && *p == *final(m) && call_ensures(f, (m,), Some(k))
                    ==> call_requires(project, (p, k)),
        ensures
            match r {
                Ok(x) => exists|m: &mut Self, p: &mut Self, k: K|
                    *m == *old(self) && *p == *final(m) && call_ensures(f, (m,), Some(k))
                        && *final(p) == *final(self) && call_ensures(project, (p, k), x),
                Err(h) => exists|m: &mut Self|
                    *m == *old(self) && *h == *final(m) && call_ensures(f, (m,), None)
                        && *final(h) == *final(self),
            },
    {
        match f.call(self) {
            Some(k) => Ok(project(self, k)),
            None => Err(self),
        }
    }
}

impl<T> PoloniusExt for T {}

} // verus!
