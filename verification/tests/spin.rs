use adc_pipeline::spin::wait_for;
use std::cell::Cell;

#[test]
fn wait_ends_at_the_first_poll_that_holds() {
    let polls = Cell::new(0u32);
    let held = wait_for(
        || {
            polls.set(polls.get() + 1);
            polls.get() >= 3
        },
        10,
    );
    assert!(held);
    assert_eq!(polls.get(), 3);
}

#[test]
fn wait_gives_up_after_the_limit() {
    let polls = Cell::new(0u32);
    let held = wait_for(
        || {
            polls.set(polls.get() + 1);
            false
        },
        4,
    );
    assert!(!held);
    assert_eq!(polls.get(), 4);
}

#[test]
fn wait_with_no_polls_allowed_does_not_poll() {
    let polls = Cell::new(0u32);
    let held = wait_for(
        || {
            polls.set(polls.get() + 1);
            true
        },
        0,
    );
    assert!(!held);
    assert_eq!(polls.get(), 0);
}
