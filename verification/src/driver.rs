use vstd::prelude::*;

use crate::clock::ClockSource;
use crate::clock::Frequency;
use crate::clock::calibration_of;
use crate::clock::ns_of;
use crate::errors::TimeError;
use crate::pool::ContextAllocator;
use crate::pool::MAX_TIMERS;
use crate::pool::exhausted;
use crate::pool::no_reusable_before;
use crate::pool::pending_at;
use crate::pool::reusable_at;

verus! {

/// The relative trigger, in 100-nanosecond units, that arms a firmware
/// one-shot timer to fire at the absolute deadline: the distance from "now"
/// to the deadline divided by 100, truncated toward zero. A deadline at or
/// before "now" yields 0, which is legal and fires immediately.
pub open spec fn trigger_of(deadline_ns: u64, now_ns: u64) -> int {
    if deadline_ns <= now_ns {
        0
    } else {
        (deadline_ns - now_ns) / 100
    }
}

/// What the surrounding program must register with the firmware for one
/// scheduled wake: which pool slot the callback will be bound to, and the
/// relative trigger to arm the one-shot timer with.
#[derive(Clone, Copy, Debug, PartialEq, Eq, Structural)]
pub struct TimerRegistration {
    pub slot: usize,
    pub trigger_100ns: u64,
}

/// The deadline-based wake scheduler: one process-wide service object that
/// owns the calibrated clock and the wake-context pool. The surrounding
/// program supplies raw hardware readings and performs the firmware calls;
/// every decision and every piece of arithmetic happens here.
pub struct UefiTimeDriver {
    pub clock: ClockSource,
    pub contexts: ContextAllocator,
}

impl UefiTimeDriver {
    pub open spec fn wf(self) -> bool {
        self.contexts.wf()
    }

    pub fn new() -> (d: UefiTimeDriver)
        ensures
            d.wf(),
            !d.clock.calibrated(),
            forall|j: int| 0 <= j < d.contexts@.len() ==> d.contexts@[j] is None,
    {
        UefiTimeDriver { clock: ClockSource::new(), contexts: ContextAllocator::new() }
    }

    /// Record the outcome of the hardware capability query; at most the
    /// first call decides, every later one returns the memoized value.
    pub fn calibrate(&mut self, eax: u32, ebx: u32, ecx: u32) -> (f: Frequency)
        ensures
            final(self).contexts == old(self).contexts,
            final(self).clock.calibrated(),
            old(self).clock.calibrated() ==> final(self).clock@ == old(self).clock@ && old(self).clock@ == Some(f),
            !old(self).clock.calibrated() ==> f == calibration_of(eax, ebx, ecx) && final(self).clock@ == Some(calibration_of(eax, ebx, ecx)),
    {
        self.clock.calibrate(eax, ebx, ecx)
    }

    /// The monotonic reading for one raw counter value.
    pub fn now(&self, cycles: u64) -> (r: Result<u64, TimeError>)
        requires
            self.clock.calibrated(),
            self.clock@ matches Some(Frequency::Known(f)) ==> f > 0 && cycles * 1000 <= u64::MAX,
        ensures
            self.clock@ == Some(Frequency::Unsupported) <==> r == Err::<u64, TimeError>(
                TimeError::CalibrationUnsupported,
            ),
            self.clock.usable() ==> r == Ok::<u64, TimeError>(
                ns_of(cycles, self.clock.ratio()) as u64,
            ),
    {
        self.clock.now(cycles)
    }

    /// Schedule a wake at an absolute deadline: allocate a pool slot for the
    /// caller's resumption handle, read "now" from the supplied counter
    /// value, and compute the relative trigger for the firmware timer.
    /// Fails with `PoolExhausted` exactly when every slot is still pending
    /// (the pool is then unchanged), and with `CalibrationUnsupported`
    /// exactly when a slot was free but calibration recorded `Unsupported`
    /// (the slot allocated first stays pending, as the registration it was
    /// meant for is abandoned only after it was written).
    pub fn schedule_wake(&mut self, deadline_ns: u64, waker: &core::task::Waker, cycles: u64) -> (r:
        Result<TimerRegistration, TimeError>)
        requires
            old(self).wf(),
            old(self).clock.calibrated(),
            old(self).clock@ matches Some(Frequency::Known(f)) ==> f > 0 && cycles * 1000
                <= u64::MAX,
        ensures
            final(self).wf(),
            final(self).clock == old(self).clock,
            r == Err::<TimerRegistration, TimeError>(TimeError::PoolExhausted) <==> exhausted(
                old(self).contexts@,
            ),
            r == Err::<TimerRegistration, TimeError>(TimeError::PoolExhausted) ==> final(self).contexts@ == old(self).contexts@,
            r == Err::<TimerRegistration, TimeError>(TimeError::CalibrationUnsupported) <==> !exhausted(
                old(self).contexts@,
            ) && old(self).clock@ == Some(Frequency::Unsupported),
            !exhausted(old(self).contexts@) ==> (exists|i: int|
                {
                    &&& 0 <= i < MAX_TIMERS
                    &&& reusable_at(old(self).contexts@, i)
                    &&& no_reusable_before(old(self).contexts@, i)
                    &&& pending_at(final(self).contexts@, i)
                    &&& final(self).contexts@ == old(self).contexts@.update(
                        i,
                        final(self).contexts@[i],
                    )
                }),
            !exhausted(old(self).contexts@) && old(self).clock.usable() ==> r is Ok,
            r matches Ok(reg) ==> {
                &&& old(self).clock.usable()
                &&& reg.slot < MAX_TIMERS
                &&& reusable_at(old(self).contexts@, reg.slot as int)
                &&& no_reusable_before(old(self).contexts@, reg.slot as int)
                &&& pending_at(final(self).contexts@, reg.slot as int)
                &&& final(self).contexts@ == old(self).contexts@.update(
                    reg.slot as int,
                    final(self).contexts@[reg.slot as int],
                )
                &&& reg.trigger_100ns == trigger_of(
                    deadline_ns,
                    ns_of(cycles, old(self).clock.ratio()) as u64,
                )
            },
    {
        let slot = match self.contexts.allocate_event(waker) {
            Some(i) => i,
            None => {
                return Err(TimeError::PoolExhausted);
            },
        };
        let now_ns = match self.clock.now(cycles) {
            Ok(ns) => ns,
            Err(e) => {
                return Err(e);
            },
        };
        let trigger_100ns = if deadline_ns <= now_ns {
            0
        } else {
            (deadline_ns - now_ns) / 100
        };
        Ok(TimerRegistration { slot, trigger_100ns })
    }

    /// The callback protocol, run when the firmware signals that the timer
    /// bound to `slot` has elapsed: resume the stored handle and mark the
    /// slot reclaimable. Touches nothing but that slot.
    pub fn fire(&mut self, slot: usize)
        requires
            old(self).wf(),
            slot < old(self).contexts@.len(),
            old(self).contexts@[slot as int] is Some,
        ensures
            final(self).wf(),
            final(self).clock == old(self).clock,
            final(self).contexts@[slot as int] matches Some(c) && c.done && c.waker == old(self).contexts@[slot as int]->0.waker,
            final(self).contexts@ == old(self).contexts@.update(
                slot as int,
                final(self).contexts@[slot as int],
            ),
    {
        self.contexts.fire_slot(slot);
    }
}

} // verus!
