//! Timeline semaphores, retained values and per-frame resource rings.
//!
//! Each logical queue owns one monotonic 64-bit timeline.  A value `v` is
//! signalled when the `v`-th submission on that queue completes.  Values
//! retained past a submission are dropped only once the timeline has
//! completed past their wait value, and per-frame replicas are recycled on
//! the same rule.

use vstd::prelude::*;
use crate::error::SchedulerError;

verus! {

/// One monotonic timeline: the highest value handed out to submissions,
/// and the highest value the device has completed.
#[derive(Clone, Copy, Debug, PartialEq, Eq, Structural)]
pub struct Timeline {
    pub queue: usize,
    pub value: u64,
    pub completed: u64,
}

impl Timeline {
    /// Completion never runs ahead of what was handed out.
    pub open spec fn wf(self) -> bool {
        self.completed <= self.value
    }

    /// A fresh timeline starts at zero.
    pub fn new(queue: usize) -> (r: Timeline)
        ensures
            r.wf(),
            r.queue == queue,
            r.value == 0,
            r.completed == 0,
    {
        Timeline { queue, value: 0, completed: 0 }
    }

    /// Hands out the next value for a submission to signal; values are
    /// strictly increasing, one per submission.
    pub fn advance(&mut self) -> (v: u64)
        requires
            old(self).value < u64::MAX,
        ensures
            v == old(self).value + 1,
            *final(self) == (Timeline { value: v, ..*old(self) }),
            old(self).wf() ==> final(self).wf(),
    {
        self.value = self.value + 1;
        self.value
    }

    /// The device reports completion up to `v`; completion is monotone and
    /// never passes the handed-out value.
    pub fn complete_to(&mut self, v: u64)
        requires
            old(self).completed <= v <= old(self).value,
        ensures
            *final(self) == (Timeline { completed: v, ..*old(self) }),
            final(self).wf(),
    {
        self.completed = v;
    }

    /// A host wait with a timeout: succeeds exactly when the value has
    /// completed; on timeout the frame is skipped.
    pub fn host_wait_outcome(&self, v: u64) -> (r: Result<(), SchedulerError>)
        ensures
            r is Ok <==> v <= self.completed,
            r is Err ==> r == Result::<(), SchedulerError>::Err(SchedulerError::TimelineTimeout),
    {
        if v <= self.completed {
            Ok(())
        } else {
            Err(SchedulerError::TimelineTimeout)
        }
    }
}

/// A value kept alive until a timeline point passes.
pub struct RetainedEntry<T> {
    pub wait_value: u64,
    pub value: T,
}

/// Values retained past their submission, dropped only once the owning
/// timeline has completed their wait value.
pub struct RetainedPool<T> {
    pub entries: Vec<RetainedEntry<T>>,
}

impl<T> RetainedPool<T> {
    pub fn new() -> (r: Self)
        ensures
            r.entries.len() == 0,
    {
        RetainedPool { entries: Vec::new() }
    }

    /// Keeps `value` alive until the timeline completes `wait_value`.
    pub fn retain(&mut self, wait_value: u64, value: T)
        ensures
            final(self).entries@.len() == old(self).entries@.len() + 1,
            final(self).entries@.last().wait_value == wait_value,
            final(self).entries@.last().value == value,
            forall|i: int|
                0 <= i < old(self).entries@.len() ==> final(self).entries@[i] == old(self).entries@[i],
    {
        self.entries.push(RetainedEntry { wait_value, value });
    }

    /// Releases exactly the values whose wait value has completed; every
    /// entry that stays has a wait value the timeline has not reached.
    /// Nothing is dropped earlier than its wait value completes.
    pub fn reclaim(&mut self, completed: u64) -> (freed: Vec<RetainedEntry<T>>)
        ensures
            forall|i: int|
                0 <= i < final(self).entries@.len() ==> (#[trigger] final(self).entries@[i]).wait_value > completed,
            forall|i: int|
                0 <= i < freed@.len() ==> (#[trigger] freed@[i]).wait_value <= completed,
            final(self).entries@.len() + freed@.len() == old(self).entries@.len(),
            forall|i: int|
                0 <= i < old(self).entries@.len() ==> (final(self).entries@.contains(
                    #[trigger] old(self).entries@[i],
                ) || freed@.contains(old(self).entries@[i])),
    {
        let mut kept: Vec<RetainedEntry<T>> = Vec::new();
        let mut freed: Vec<RetainedEntry<T>> = Vec::new();
        loop
            invariant
                forall|i: int|
                    0 <= i < kept@.len() ==> (#[trigger] kept@[i]).wait_value > completed,
                forall|i: int|
                    0 <= i < freed@.len() ==> (#[trigger] freed@[i]).wait_value <= completed,
                kept@.len() + freed@.len() + self.entries@.len() == old(self).entries@.len(),
                forall|i: int|
                    0 <= i < old(self).entries@.len() ==> (kept@.contains(
                        #[trigger] old(self).entries@[i],
                    ) || freed@.contains(old(self).entries@[i]) || self.entries@.contains(
                        old(self).entries@[i],
                    )),
            ensures
                self.entries@.len() == 0,
                forall|i: int|
                    0 <= i < kept@.len() ==> (#[trigger] kept@[i]).wait_value > completed,
                forall|i: int|
                    0 <= i < freed@.len() ==> (#[trigger] freed@[i]).wait_value <= completed,
                kept@.len() + freed@.len() == old(self).entries@.len(),
                forall|i: int|
                    0 <= i < old(self).entries@.len() ==> (kept@.contains(
                        #[trigger] old(self).entries@[i],
                    ) || freed@.contains(old(self).entries@[i])),
            decreases self.entries@.len(),
        {
            let ghost pool_pre = self.entries@;
            let ghost kept_pre = kept@;
            let ghost freed_pre = freed@;
            match self.entries.pop() {
                None => {
                    break ;
                },
                Some(e) => {
                    if e.wait_value <= completed {
                        freed.push(e);
                    } else {
                        kept.push(e);
                    }
                    proof {
                        assert forall|i: int|
                            0 <= i < old(self).entries@.len() implies (kept@.contains(
                            #[trigger] old(self).entries@[i],
                        ) || freed@.contains(old(self).entries@[i]) || self.entries@.contains(
                            old(self).entries@[i],
                        )) by {
                            let x = old(self).entries@[i];
                            if pool_pre.contains(x) {
                                let j = choose|j: int|
                                    0 <= j < pool_pre.len() && pool_pre[j] == x;
                                if j < pool_pre.len() - 1 {
                                    assert(self.entries@[j] == x);
                                } else {
                                    if e.wait_value <= completed {
                                        assert(freed@.last() == x);
                                    } else {
                                        assert(kept@.last() == x);
                                    }
                                }
                            } else if kept_pre.contains(x) {
                                let j = choose|j: int| 0 <= j < kept_pre.len() && kept_pre[j] == x;
                                assert(kept@[j] == x);
                            } else {
                                let j = choose|j: int|
                                    0 <= j < freed_pre.len() && freed_pre[j] == x;
                                assert(freed@[j] == x);
                            }
                        }
                    }
                },
            }
        }
        self.entries = kept;
        freed
    }
}

/// Default number of frames in flight.
pub const N_IN_FLIGHT_DEFAULT: u64 = 2;

/// Whether a per-frame replica last used at `slot_wait` may be recycled
/// once the owning timeline reports `completed`.
pub fn replica_ready(slot_wait: u64, completed: u64) -> (r: bool)
    ensures
        r == (slot_wait <= completed),
{
    slot_wait <= completed
}

/// One slot of a ring of replicas for a per-frame resource.
pub struct FrameSlot<T> {
    pub last_use: u64,
    pub value: T,
}

/// A ring of `n_in_flight` replicas.  Frame `k` uses slot `k mod n`; the
/// slot is free without waiting exactly when the timeline has completed
/// the slot's last use, which for a steadily advancing frame counter is
/// value `k - n`.
pub struct FramePool<T> {
    pub n_in_flight: u64,
    pub slots: Vec<FrameSlot<T>>,
}

impl<T> FramePool<T> {
    pub open spec fn wf(self) -> bool {
        1 <= self.n_in_flight <= 3 && self.slots.len() == self.n_in_flight
    }

    /// Which slot serves this frame.
    pub fn slot_of(&self, frame: u64) -> (r: usize)
        requires
            self.wf(),
        ensures
            r == frame % self.n_in_flight,
            r < self.slots.len(),
    {
        (frame % self.n_in_flight) as usize
    }

    /// Whether taking this frame's replica needs a host wait: it does not
    /// exactly when the slot's last use has completed.
    pub fn needs_host_wait(&self, frame: u64, completed: u64) -> (r: bool)
        requires
            self.wf(),
        ensures
            r == (self.slots[(frame % self.n_in_flight) as int].last_use > completed),
    {
        let idx = self.slot_of(frame);
        self.slots[idx].last_use > completed
    }

    /// Stamps this frame's replica with the timeline value at which its
    /// new use completes.
    pub fn stamp(&mut self, frame: u64, signal_value: u64)
        requires
            old(self).wf(),
        ensures
            final(self).wf(),
            final(self).slots@ == old(self).slots@.update(
                (frame % old(self).n_in_flight) as int,
                FrameSlot {
                    last_use: signal_value,
                    value: old(self).slots@[(frame % old(self).n_in_flight) as int].value,
                },
            ),
    {
        let idx = self.slot_of(frame);
        let slot = &mut self.slots[idx];
        slot.last_use = signal_value;
        proof {
            assert(final(slot).value == old(self).slots@[idx as int].value);
        }
    }
}

} // verus!
