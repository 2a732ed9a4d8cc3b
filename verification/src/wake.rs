//! The wake-notification cell shared by producer and consumer, guarded by
//! its own exclusion, distinct from the sample queue's. The consumer parks
//! a continuation here when it finds the queue empty; the producer takes and
//! invokes it after a delivery. Each method is one critical section: the
//! caller holds the cell's lock exactly for the duration of one call and
//! invokes a returned continuation only after releasing it.

use vstd::prelude::*;

verus! {

/// Shared wake state: a parked continuation, a data flag that suppresses
/// redundant wakes, and the shutdown request flag.
pub struct WakeState<W> {
    pub waker: Option<W>,
    pub has_data: bool,
    pub shutdown: bool,
}

/// The cell after a producer notification: the data flag is raised and the
/// continuation slot is emptied; a raised flag leaves the cell untouched.
pub open spec fn after_notify<W>(cell: WakeState<W>) -> WakeState<W> {
    if cell.has_data {
        cell
    } else {
        WakeState { waker: None, has_data: true, shutdown: cell.shutdown }
    }
}

/// The continuation a producer notification hands back for invocation:
/// the parked one, unless the consumer was already marked as having data.
pub open spec fn notify_taken<W>(cell: WakeState<W>) -> Option<W> {
    if cell.has_data {
        None
    } else {
        cell.waker
    }
}

impl<W> WakeState<W> {
    pub fn new() -> (cell: WakeState<W>)
        ensures
            cell.waker is None,
            !cell.has_data,
            !cell.shutdown,
    {
        WakeState { waker: None, has_data: false, shutdown: false }
    }

    pub fn is_shutdown(&self) -> (r: bool)
        ensures
            r == self.shutdown,
    {
        self.shutdown
    }

    /// Consumer shutdown: raises the shutdown flag and changes nothing else.
    /// Once raised the flag is never cleared by any operation.
    pub fn request_shutdown(&mut self)
        ensures
            final(self).shutdown,
            final(self).waker == old(self).waker,
            final(self).has_data == old(self).has_data,
    {
        self.shutdown = true;
    }

    /// Consumer registration, after it found the queue empty: unless shut
    /// down, clears the data flag and parks `waker`, so that the next
    /// delivery resumes the consumer. Returns whether the stream is closed,
    /// in which case nothing is parked.
    pub fn register(&mut self, waker: W) -> (closed: bool)
        ensures
            closed == old(self).shutdown,
            final(self).shutdown == old(self).shutdown,
            old(self).shutdown ==> final(self).waker == old(self).waker && final(self).has_data
                == old(self).has_data,
            !old(self).shutdown ==> final(self).waker == Some(waker) && !final(self).has_data,
    {
        if self.shutdown {
            return true;
        }
        self.has_data = false;
        self.waker = Some(waker);
        false
    }

    /// Producer notification, after it appended samples: if the consumer was
    /// not already marked as having data, raises the flag and hands back the
    /// parked continuation, to be invoked with the exclusion released.
    pub fn notify(&mut self) -> (woken: Option<W>)
        ensures
            *final(self) == after_notify(*old(self)),
            woken == notify_taken(*old(self)),
    {
        if !self.has_data {
            self.has_data = true;
            self.waker.take()
        } else {
            None
        }
    }
}

/// Clean shutdown: a producer notification never clears a raised shutdown
/// flag, so once the consumer has requested shutdown the stream stays
/// closed — `register` then refuses to park a continuation and every poll
/// answers that the stream is closed, idempotently.
pub proof fn lemma_shutdown_is_absorbing<W>(cell: WakeState<W>)
    requires
        cell.shutdown,
    ensures
        after_notify(cell).shutdown,
{
}

/// No missed wakeup: whenever the consumer has parked a continuation and the
/// data flag is down — exactly the state `register` leaves behind after a
/// poll returned pending — the very next producer notification takes that
/// continuation and hands it back for invocation, so a delivery strictly
/// after the consumer suspended always resumes it.
pub proof fn lemma_no_missed_wakeup<W>(cell: WakeState<W>, w: W)
    requires
        cell.waker == Some(w),
        !cell.has_data,
    ensures
        notify_taken(cell) == Some(w),
        after_notify(cell).has_data,
{
}

} // verus!
