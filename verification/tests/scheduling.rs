use std::sync::Arc;
use std::sync::atomic::AtomicUsize;
use std::sync::atomic::Ordering;
use std::task::Wake;
use std::task::Waker;

use uefi_time_driver::driver::UefiTimeDriver;
use uefi_time_driver::errors::TimeError;
use uefi_time_driver::pool::ContextAllocator;
use uefi_time_driver::pool::MAX_TIMERS;

struct CountingWake {
    count: AtomicUsize,
}

impl Wake for CountingWake {
    fn wake(self: Arc<Self>) {
        self.count.fetch_add(1, Ordering::SeqCst);
    }

    fn wake_by_ref(self: &Arc<Self>) {
        self.count.fetch_add(1, Ordering::SeqCst);
    }
}

fn counting_waker() -> (Arc<CountingWake>, Waker) {
    let state = Arc::new(CountingWake { count: AtomicUsize::new(0) });
    let waker = Waker::from(Arc::clone(&state));
    (state, waker)
}

#[test]
fn allocation_fills_slots_in_index_order() {
    let (_state, waker) = counting_waker();
    let mut pool = ContextAllocator::new();
    assert_eq!(pool.allocate_event(&waker), Some(0));
    assert_eq!(pool.allocate_event(&waker), Some(1));
    assert_eq!(pool.allocate_event(&waker), Some(2));
    assert!(pool.slot_is_pending(0));
    assert!(pool.slot_is_pending(1));
    assert!(pool.slot_is_pending(2));
}

#[test]
fn allocation_skips_pending_and_reuses_fired_slot() {
    let (_state, waker) = counting_waker();
    let mut pool = ContextAllocator::new();
    assert_eq!(pool.allocate_event(&waker), Some(0));
    assert_eq!(pool.allocate_event(&waker), Some(1));
    assert_eq!(pool.allocate_event(&waker), Some(2));
    pool.fire_slot(1);
    assert!(pool.slot_is_done(1));
    // Slot 0 is still pending, so the fired slot 1 is the first reusable
    // one, and allocation hands out exactly that slot again.
    assert_eq!(pool.allocate_event(&waker), Some(1));
    assert!(pool.slot_is_pending(1));
    // The neighbours were never touched.
    assert!(pool.slot_is_pending(0));
    assert!(pool.slot_is_pending(2));
}

#[test]
fn full_pool_exhausts_deterministically() {
    let (_state, waker) = counting_waker();
    let mut pool = ContextAllocator::new();
    for expected in 0..MAX_TIMERS {
        assert_eq!(pool.allocate_event(&waker), Some(expected));
    }
    assert_eq!(pool.allocate_event(&waker), None);
    // Reclaiming any one slot makes exactly that slot available again.
    pool.fire_slot(77);
    assert_eq!(pool.allocate_event(&waker), Some(77));
    assert_eq!(pool.allocate_event(&waker), None);
}

#[test]
fn firing_a_slot_wakes_its_task_once() {
    let (state, waker) = counting_waker();
    let mut pool = ContextAllocator::new();
    let slot = pool.allocate_event(&waker).unwrap();
    assert_eq!(state.count.load(Ordering::SeqCst), 0);
    pool.fire_slot(slot);
    assert_eq!(state.count.load(Ordering::SeqCst), 1);
    assert!(pool.slot_is_done(slot));
}

#[test]
fn schedule_wake_registers_one_second_deadline() {
    let (state, waker) = counting_waker();
    let mut driver = UefiTimeDriver::new();
    // Ratio 1000 makes one cycle one nanosecond.
    driver.calibrate(1, 1, 1_000);
    let cycles = 5_000_000u64;
    let now = driver.now(cycles).unwrap();
    assert_eq!(now, 5_000_000);
    let reg = driver.schedule_wake(now + 1_000_000_000, &waker, cycles).unwrap();
    assert_eq!(reg.slot, 0);
    // The firmware trigger is the distance to the deadline in 100 ns units.
    assert_eq!(reg.trigger_100ns, 10_000_000);
    // Simulate the firmware firing at the deadline: the task is resumed
    // exactly once and the slot becomes reclaimable.
    driver.fire(reg.slot);
    assert_eq!(state.count.load(Ordering::SeqCst), 1);
    assert!(driver.contexts.slot_is_done(reg.slot));
}

#[test]
fn past_deadlines_arm_an_immediate_trigger() {
    let (_state, waker) = counting_waker();
    let mut driver = UefiTimeDriver::new();
    driver.calibrate(1, 1, 1_000);
    let cycles = 2_000_000u64;
    let now = driver.now(cycles).unwrap();
    let at_now = driver.schedule_wake(now, &waker, cycles).unwrap();
    assert_eq!(at_now.trigger_100ns, 0);
    let before_now = driver.schedule_wake(now - 500, &waker, cycles).unwrap();
    assert_eq!(before_now.trigger_100ns, 0);
    // Truncation toward zero: 150 ns ahead is one whole 100 ns unit.
    let just_ahead = driver.schedule_wake(now + 150, &waker, cycles).unwrap();
    assert_eq!(just_ahead.trigger_100ns, 1);
}

#[test]
fn schedule_wake_reports_pool_exhaustion() {
    let (_state, waker) = counting_waker();
    let mut driver = UefiTimeDriver::new();
    driver.calibrate(1, 1, 1_000);
    for _ in 0..MAX_TIMERS {
        assert!(driver.schedule_wake(1_000_000, &waker, 1_000).is_ok());
    }
    assert_eq!(
        driver.schedule_wake(1_000_000, &waker, 1_000),
        Err(TimeError::PoolExhausted)
    );
}

#[test]
fn schedule_wake_reports_unsupported_calibration() {
    let (_state, waker) = counting_waker();
    let mut driver = UefiTimeDriver::new();
    driver.calibrate(0, 0, 0);
    assert_eq!(
        driver.schedule_wake(1_000_000, &waker, 1_000),
        Err(TimeError::CalibrationUnsupported)
    );
}
