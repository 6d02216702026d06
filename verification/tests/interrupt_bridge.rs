use std::sync::atomic::{AtomicUsize, Ordering};
use std::sync::Arc;
use std::task::Wake;

use bouffalo_hal::glb::v2::RegisterBlock;
use bouffalo_hal::input_async::GpioState;

struct CountWaker {
    count: AtomicUsize,
}

impl Wake for CountWaker {
    fn wake(self: Arc<Self>) {
        self.count.fetch_add(1, Ordering::SeqCst);
    }
}

fn counting_waker() -> (Arc<CountWaker>, core::task::Waker) {
    let counter = Arc::new(CountWaker { count: AtomicUsize::new(0) });
    let waker = core::task::Waker::from(counter.clone());
    (counter, waker)
}

#[test]
fn interrupt_without_waker_clears_pending() {
    let mut state = GpioState::new();
    let mut glb = RegisterBlock::new();

    // A hardware event for pin 5 with nobody registered: the routine
    // clears the pending bit and does not panic.
    glb.set_interrupt_pending(5);
    assert!(glb.gpio_config[5].has_interrupt());
    state.on_interrupt(&mut glb);
    assert!(!glb.gpio_config[5].has_interrupt());

    // Now register a waker for pin 5 and fire the event again: the wake
    // runs exactly once and the slot returns to empty.
    let (counter, waker) = counting_waker();
    state.register(5, waker);
    assert!(state.is_registered(5));
    glb.set_interrupt_pending(5);
    state.on_interrupt(&mut glb);
    assert_eq!(counter.count.load(Ordering::SeqCst), 1);
    assert!(!state.is_registered(5));
    assert!(!glb.gpio_config[5].has_interrupt());
}

#[test]
fn second_service_pass_is_a_no_op() {
    let mut state = GpioState::new();
    let mut glb = RegisterBlock::new();

    let (counter, waker) = counting_waker();
    state.register(7, waker);
    glb.set_interrupt_pending(7);
    state.on_interrupt(&mut glb);
    assert_eq!(counter.count.load(Ordering::SeqCst), 1);

    // With no new hardware event, a second pass wakes nobody and leaves
    // every register exactly as the first pass did.
    let snapshot: Vec<u32> = glb.gpio_config.iter().map(|c| c.0).collect();
    state.on_interrupt(&mut glb);
    assert_eq!(counter.count.load(Ordering::SeqCst), 1);
    let after: Vec<u32> = glb.gpio_config.iter().map(|c| c.0).collect();
    assert_eq!(after, snapshot);
}

#[test]
fn waker_stays_registered_without_event() {
    let mut state = GpioState::new();
    let mut glb = RegisterBlock::new();

    let (counter, waker) = counting_waker();
    state.register(3, waker);
    glb.set_interrupt_pending(4);
    state.on_interrupt(&mut glb);
    // Pin 4's event is cleared silently; pin 3's waker stays armed.
    assert_eq!(counter.count.load(Ordering::SeqCst), 0);
    assert!(state.is_registered(3));
    assert!(!glb.gpio_config[4].has_interrupt());
}

#[test]
fn last_registration_wins() {
    let mut state = GpioState::new();
    let mut glb = RegisterBlock::new();

    let (first, first_waker) = counting_waker();
    let (second, second_waker) = counting_waker();
    state.register(2, first_waker);
    state.register(2, second_waker);
    glb.set_interrupt_pending(2);
    state.on_interrupt(&mut glb);
    // Only the superseding waker runs; the first was dropped silently.
    assert_eq!(first.count.load(Ordering::SeqCst), 0);
    assert_eq!(second.count.load(Ordering::SeqCst), 1);
}

#[test]
fn poll_wait_registers_until_ready() {
    let mut state = GpioState::new();
    let mut glb = RegisterBlock::new();

    let (counter, waker) = counting_waker();
    // The condition does not hold yet: the task parks its waker.
    assert!(!state.poll_wait(&glb, 12, waker));
    assert!(state.is_registered(12));

    // The interrupt fires and the service routine resumes the task.
    glb.set_interrupt_pending(12);
    state.on_interrupt(&mut glb);
    assert_eq!(counter.count.load(Ordering::SeqCst), 1);

    // The woken task polls again; the pending bit was cleared by the
    // service routine, so it parks again until the next event.
    let (_counter2, waker2) = counting_waker();
    assert!(!state.poll_wait(&glb, 12, waker2));

    // With the condition already true at poll time, the wait is over.
    glb.set_interrupt_pending(12);
    let (_counter3, waker3) = counting_waker();
    assert!(state.poll_wait(&glb, 12, waker3));
}

#[test]
fn stale_waker_is_a_safe_no_op() {
    let mut state = GpioState::new();
    let mut glb = RegisterBlock::new();

    let (counter, waker) = counting_waker();
    state.register(8, waker);
    // The awaiting task is abandoned before the event arrives.
    drop(counter);
    glb.set_interrupt_pending(8);
    // Waking the now-irrelevant handle must not panic.
    state.on_interrupt(&mut glb);
    assert!(!state.is_registered(8));
}
