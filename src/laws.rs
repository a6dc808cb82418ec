use vstd::prelude::*;

verus! {

/// A probe that reports nothing hands the owner back as the probe left it:
/// whatever every not-found outcome of `f` from `before` guarantees of the
/// owner it leaves holds of a handle restored from such an outcome.
///
/// The restored handle here is the `Err` payload of the narrowing methods of
/// `PoloniusExt`, whose `ensures` give the premise about it.
pub proof fn restored_sees_probe_changes<S, K, F>(f: F, before: S, restored: S, holds: spec_fn(S) -> bool)
    where
        F: FnOnce(&mut S) -> Option<K>,
    requires
        forall|m: &mut S| *m == before && call_ensures(f, (m,), None) ==> holds(*final(m)),
        exists|m: &mut S| *m == before && restored == *final(m) && call_ensures(f, (m,), None),
    ensures
        holds(restored),
{
}

/// A probe that reports nothing and leaves the owner alone hands it back
/// unchanged: the restored handle holds exactly the state from before the call.
pub proof fn restored_unchanged<S, K, F>(f: F, before: S, restored: S)
    where
        F: FnOnce(&mut S) -> Option<K>,
    requires
        forall|m: &mut S| call_ensures(f, (m,), None) ==> *final(m) == *m,
        exists|m: &mut S| *m == before && restored == *final(m) && call_ensures(f, (m,), None),
    ensures
        restored == before,
{
    restored_sees_probe_changes(f, before, restored, |s: S| s == before);
}

/// A found target is handed over as it is: whatever the projection `project`
/// guarantees of its result, on the owner as `f` left it and the position `f`
/// reported, holds of the success value.
///
/// The success value here is the `Ok` payload of `try_get_mut_with` or
/// `try_get_with2` of `PoloniusExt`, whose `ensures` give the premise about it.
pub proof fn success_is_projection<'a, S: 'a, K, T, F, P>(f: F, project: P, before: S, found: T, holds: spec_fn(T) -> bool)
    where
        F: FnOnce(&mut S) -> Option<K>,
        P: FnOnce(&'a mut S, K) -> T,
    requires
        forall|m: &mut S, p: &'a mut S, k: K, y: T|
            *m == before && *p == *final(m) && call_ensures(f, (m,), Some(k)) && call_ensures(project, (p, k), y)
                ==> holds(y),
        exists|m: &mut S, p: &'a mut S, k: K|
            *m == before && *p == *final(m) && call_ensures(f, (m,), Some(k)) && call_ensures(project, (p, k), found),
    ensures
        holds(found),
{
}

} // verus!
