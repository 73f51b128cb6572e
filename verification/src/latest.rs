//! The coalescing "latest known value" primitive: a value paired with a
//! monotonically increasing iteration counter. Listeners remember the last
//! iteration they saw and only observe the value stored at a newer iteration;
//! rapid updates coalesce, so a slow listener sees the latest value, never an
//! intermediate one. The blocking/waking half of the mechanism (mutex,
//! condition variable) lives with the embedding application; this state
//! machine is what it guards.

use vstd::prelude::*;

verus! {

/// Latest published value plus the iteration at which it was published.
pub struct LatestEventValue<T> {
    pub iteration: i64,
    pub value: T,
}

impl<T> LatestEventValue<T> {
    /// The state after one `update` with `new_value`.
    pub open spec fn updated(self, new_value: T) -> LatestEventValue<T> {
        LatestEventValue { iteration: (self.iteration + 1) as i64, value: new_value }
    }

    /// Fresh state at iteration zero holding the default value.
    pub fn new() -> (r: Self) where T: Default
        ensures
            r.iteration == 0,
    {
        LatestEventValue { iteration: 0, value: T::default() }
    }

    /// Replaces the value and advances the iteration, making the new value
    /// observable to every listener.
    pub fn update(&mut self, new_value: T)
        requires
            old(self).iteration < i64::MAX,
        ensures
            *final(self) == old(self).updated(new_value),
            final(self).iteration == old(self).iteration + 1,
            final(self).value == new_value,
    {
        self.iteration = self.iteration + 1;
        self.value = new_value;
    }

    /// Conditional update: when `update_func` declines (returns `None`) the
    /// iteration does not advance and listeners observe nothing new.
    pub fn update_fn<F: FnOnce(&T) -> Option<T>>(&mut self, update_func: F)
        requires
            old(self).iteration < i64::MAX,
            update_func.requires((&old(self).value,)),
        ensures
            exists|r: Option<T>|
                {
                    &&& #[trigger] update_func.ensures((&old(self).value,), r)
                    &&& match r {
                        Option::Some(v) => *final(self) == old(self).updated(v),
                        Option::None => *final(self) == *old(self),
                    }
                },
    {
        let updated_data = update_func(&self.value);
        match updated_data {
            Option::Some(v) => {
                self.iteration = self.iteration + 1;
                self.value = v;
            },
            Option::None => {},
        }
    }
}

/// One independent listener: remembers the iteration it last observed.
pub struct LatestEventValueListener {
    pub last_seen_iteration: i64,
}

impl LatestEventValueListener {
    /// A listener that has seen nothing yet (the initial iteration is zero,
    /// so nothing is observed until the first update).
    pub fn new() -> (r: Self)
        ensures
            r.last_seen_iteration == 0,
    {
        LatestEventValueListener { last_seen_iteration: 0 }
    }

    /// Observes the stored value exactly when the iteration moved since this
    /// listener last looked, and records the new iteration. The embedding
    /// application blocks on its condition variable while this returns `None`.
    pub fn next<'a, T>(&mut self, data: &'a LatestEventValue<T>) -> (r: Option<&'a T>)
        ensures
            data.iteration != old(self).last_seen_iteration ==> r == Option::Some(&data.value)
                && final(self).last_seen_iteration == data.iteration,
            data.iteration == old(self).last_seen_iteration ==> r is None && *final(self) == *old(
                self,
            ),
    {
        if data.iteration != self.last_seen_iteration {
            self.last_seen_iteration = data.iteration;
            Option::Some(&data.value)
        } else {
            Option::None
        }
    }
}

/// The state after a whole run of `update` calls, applied first to last.
pub open spec fn apply_updates<T>(s: LatestEventValue<T>, vs: Seq<T>) -> LatestEventValue<T>
    decreases vs.len(),
{
    if vs.len() == 0 {
        s
    } else {
        apply_updates(s.updated(vs[0]), vs.subrange(1, vs.len() as int))
    }
}

/// Coalescing law: after any non-empty run of updates, the stored value is the
/// value of the last update and the iteration has advanced once per update.
/// In particular the iteration differs from what it was before the run, so a
/// listener created before the run and calling `next` once observes exactly
/// the last updated value.
pub proof fn lemma_latest_value_coalesces<T>(s: LatestEventValue<T>, vs: Seq<T>)
    requires
        vs.len() >= 1,
        s.iteration + vs.len() <= i64::MAX,
    ensures
        apply_updates(s, vs).iteration == s.iteration + vs.len(),
        apply_updates(s, vs).value == vs.last(),
        apply_updates(s, vs).iteration != s.iteration,
    decreases vs.len(),
{
    let rest = vs.subrange(1, vs.len() as int);
    if vs.len() == 1 {
        assert(rest.len() == 0);
        assert(apply_updates(s, vs) == apply_updates(s.updated(vs[0]), rest));
        assert(apply_updates(s.updated(vs[0]), rest) == s.updated(vs[0]));
        assert(vs.last() == vs[0]);
    } else {
        lemma_latest_value_coalesces(s.updated(vs[0]), rest);
        assert(rest.last() == vs.last());
    }
}

} // verus!
