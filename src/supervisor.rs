use vstd::prelude::*;

verus! {

/// The supervisor's single slot: `Idle` when empty, `Running` when
/// it holds the handle of the one child process started through it.
///
/// Callers hold the supervisor behind one lock across a whole start, stop or
/// restart, so no other caller observes the slot between the steps.
pub struct Supervisor<H> {
    slot: Option<H>,
}

/// `after` is `before` with its slot emptied, and `taken` is what it held.
pub open spec fn stopped<H>(before: Supervisor<H>, after: Supervisor<H>, taken: Option<H>) -> bool {
    &&& taken == before.held()
    &&& after.held() is None
}

/// `after` holds exactly `handle`, and `replaced` is what `before` held.
pub open spec fn recorded<H>(before: Supervisor<H>, after: Supervisor<H>, handle: H, replaced: Option<H>) -> bool {
    &&& replaced == before.held()
    &&& after.held() == Some(handle)
}

impl<H> Supervisor<H> {
    /// What the slot holds.
    pub closed spec fn held(self) -> Option<H> {
        self.slot
    }

    /// A supervisor with no child.
    pub fn new() -> (r: Supervisor<H>)
        ensures
            r.held() is None,
    {
        Supervisor { slot: None }
    }

    /// Whether a child is held.
    pub fn is_running(&self) -> (r: bool)
        ensures
            r == self.held() is Some,
    {
        self.slot.is_some()
    }

    /// Empties the slot and hands back what it held, which the caller then
    /// terminates and waits for. On an idle supervisor nothing is handed back
    /// and nothing changes: stopping is not an error.
    pub fn stop(&mut self) -> (r: Option<H>)
        ensures
            stopped(*old(self), *final(self), r),
            old(self).held() is None ==> r is None && final(self).held() is None,
    {
        self.slot.take()
    }

    /// Holds the handle of a freshly spawned child, replacing (never
    /// merging with) whatever the slot held. A start does not look at the
    /// prior state; a caller that means to replace a running child stops it
    /// first.
    pub fn record(&mut self, handle: H) -> (r: Option<H>)
        ensures
            recorded(*old(self), *final(self), handle, r),
    {
        let replaced = self.slot.take();
        self.slot = Some(handle);
        replaced
    }
}

/// A restart, a stop followed by the record of the new child, hands the
/// child held before to termination, replaces nothing at the record,
/// and leaves exactly the new child held: no two children are ever held by
/// the supervisor, and none that it started is left alive outside it.
pub proof fn lemma_restart_holds_one<H>(
    s0: Supervisor<H>,
    s1: Supervisor<H>,
    s2: Supervisor<H>,
    terminated: Option<H>,
    handle: H,
    replaced: Option<H>,
)
    requires
        stopped(s0, s1, terminated),
        recorded(s1, s2, handle, replaced),
    ensures
        terminated == s0.held(),
        replaced is None,
        s2.held() == Some(handle),
{
}

/// Stopping an idle supervisor hands nothing back and leaves it idle.
pub proof fn lemma_stop_idle_is_noop<H>(s0: Supervisor<H>, s1: Supervisor<H>, taken: Option<H>)
    requires
        s0.held() is None,
        stopped(s0, s1, taken),
    ensures
        taken is None,
        s1.held() is None,
{
}

} // verus!
