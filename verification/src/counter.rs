//! A counter shared among concurrent workers through an exclusive-access
//! guard. The guard's mutual exclusion is supplied by the caller (`&mut`
//! within one thread, a lock across threads); what is verified here is the
//! state the guard protects: the count itself, and the poison flag that
//! records a holder having failed while the guard was held.

use vstd::prelude::*;

verus! {

/// The ways an operation on the counter can fail.
#[derive(Clone, Copy, Debug, PartialEq, Eq, Structural)]
pub enum CounterError {
    /// The exclusive-access guard was left in an inconsistent state because
    /// a prior holder terminated abnormally while holding it.
    LockPoisoned,
}

/// A concurrently-incrementable integer counter.
///
/// Its value starts at zero and changes only through [`SharedCounter::increment`],
/// which adds exactly one, so at any observation point the value equals the
/// number of completed increment operations since creation.
pub struct SharedCounter {
    value: i64,
    poisoned: bool,
}

impl SharedCounter {
    /// The current count.
    pub closed spec fn spec_value(&self) -> int {
        self.value as int
    }

    /// Whether the exclusive-access guard has been poisoned.
    pub closed spec fn spec_poisoned(&self) -> bool {
        self.poisoned
    }

    /// The counter never holds a negative count: it starts at zero and only
    /// ever grows by one.
    pub open spec fn wf(&self) -> bool {
        self.spec_value() >= 0
    }

    /// Creates a counter with value zero and an untouched guard.
    pub fn new() -> (c: SharedCounter)
        ensures
            c.wf(),
            c.spec_value() == 0,
            !c.spec_poisoned(),
    {
        SharedCounter { value: 0, poisoned: false }
    }

    /// Adds one to the counter, unless the guard is poisoned.
    ///
    /// No update is ever lost: each successful call leaves the value exactly
    /// one greater than it found it, and a failed call leaves the counter
    /// untouched.
    pub fn increment(&mut self) -> (r: Result<(), CounterError>)
        requires
            old(self).wf(),
            old(self).spec_value() < i64::MAX,
        ensures
            final(self).wf(),
            final(self).spec_poisoned() == old(self).spec_poisoned(),
            if old(self).spec_poisoned() {
                r == Err::<(), CounterError>(CounterError::LockPoisoned)
                    && final(self).spec_value() == old(self).spec_value()
            } else {
                r == Ok::<(), CounterError>(())
                    && final(self).spec_value() == spec_incremented(old(self).spec_value())
            },
    {
        if self.poisoned {
            Err(CounterError::LockPoisoned)
        } else {
            self.value = self.value + 1;
            Ok(())
        }
    }

    /// Reads the current value, unless the guard is poisoned.
    ///
    /// The result is never negative, and equals the number of completed
    /// increments since creation.
    pub fn read(&self) -> (r: Result<i64, CounterError>)
        requires
            self.wf(),
        ensures
            if self.spec_poisoned() {
                r == Err::<i64, CounterError>(CounterError::LockPoisoned)
            } else {
                r == Ok::<i64, CounterError>(self.spec_value() as i64) && r.unwrap() >= 0
            },
    {
        if self.poisoned {
            Err(CounterError::LockPoisoned)
        } else {
            Ok(self.value)
        }
    }

    /// Marks the guard as compromised, as when a holder terminates
    /// abnormally while holding it. The count itself is kept.
    pub fn poison(&mut self)
        ensures
            final(self).wf() == old(self).wf(),
            final(self).spec_value() == old(self).spec_value(),
            final(self).spec_poisoned(),
    {
        self.poisoned = true;
    }

    /// Resets the poison flag, letting a caller proceed at the risk of
    /// having missed an update. The count itself is kept.
    pub fn clear_poison(&mut self)
        ensures
            final(self).wf() == old(self).wf(),
            final(self).spec_value() == old(self).spec_value(),
            !final(self).spec_poisoned(),
    {
        self.poisoned = false;
    }

    /// Reports whether the guard has been poisoned.
    pub fn is_poisoned(&self) -> (r: bool)
        ensures
            r == self.spec_poisoned(),
    {
        self.poisoned
    }
}

/// What one successful increment leaves behind: exactly one more.
pub open spec fn spec_incremented(v: int) -> int {
    v + 1
}

/// The value after `n` increments have been applied, one at a time, to a
/// counter that started at zero.
pub open spec fn spec_value_after_increments(n: nat) -> int
    decreases n,
{
    if n == 0 {
        0
    } else {
        spec_incremented(spec_value_after_increments((n - 1) as nat))
    }
}

/// Law: no update is lost and none is duplicated. For any number `n` of
/// workers each incrementing exactly once, applying those `n` increments in
/// any order, one at a time, to a fresh counter leaves the value exactly `n`;
/// a read after all of them therefore returns `n`.
pub proof fn lemma_all_increments_counted(n: nat)
    ensures
        spec_value_after_increments(n) == n,
    decreases n,
{
    if n > 0 {
        lemma_all_increments_counted((n - 1) as nat);
    }
}

} // verus!
