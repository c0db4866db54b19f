use vstd::prelude::*;

verus! {

/// The UI-thread companion of one spawned background task: it records
/// the result when the work completes, and hands it to the callback
/// exactly once, unmodified, only after the work has completed.  A
/// failure inside the work is surfaced by the runner as a fail-fast
/// abort before any result is recorded, so a recorded result is always
/// a successful one.
#[derive(Debug)]
pub struct Completion<T> {
    /// The result of the work, once it has completed.
    pub result: Option<T>,
    /// Whether the callback has already received the result.
    pub delivered: bool,
}

/// Whether the recorded result is still waiting for its one delivery.
pub open spec fn can_deliver<T>(c: Completion<T>) -> bool {
    c.result is Some && !c.delivered
}

impl<T> Completion<T> {
    /// A fresh companion: no result yet, nothing delivered.
    pub fn new() -> (c: Completion<T>)
        ensures
            c.result is None,
            !c.delivered,
    {
        Completion { result: None, delivered: false }
    }

    /// Records the result of the completed work.  Work completes once,
    /// so a result may be recorded only once.
    pub fn finish(&mut self, value: T)
        requires
            old(self).result is None,
        ensures
            final(self).result == Some(value),
            final(self).delivered == old(self).delivered,
    {
        self.result = Some(value);
    }

    /// Hands the recorded result over for the callback: available only
    /// after the work completed and only once, and returns the result
    /// unmodified.
    pub fn deliver(&mut self) -> (r: T)
        requires
            can_deliver(*old(self)),
        ensures
            r == old(self).result->0,
            final(self).delivered,
            final(self).result is None,
    {
        self.delivered = true;
        let taken = self.result.take();
        taken.unwrap()
    }
}

/// The callback of a spawned task runs exactly once: once a delivery
/// has happened, no state reachable from it ever admits another.
pub proof fn lemma_deliver_at_most_once<T>(c: Completion<T>)
    requires
        c.delivered,
    ensures
        !can_deliver(c),
{
}

} // verus!
