use adc_pipeline::buffer::BufferId;
use adc_pipeline::engine::{TransferConfig, TransferEngine};

fn engine(capacity: u16) -> TransferEngine {
    TransferEngine::new(TransferConfig {
        source: 0x4001_204C,
        dest_a: 0x2000_0000,
        dest_b: 0x2000_0100,
        capacity,
    })
    .unwrap()
}

#[test]
fn engine_starts_at_the_first_slot_of_buffer_a() {
    let engine = engine(3);
    assert_eq!(engine.current_target(), BufferId::A);
    assert_eq!(engine.remaining(), 3);
    assert_eq!(engine.buffer(BufferId::A), &vec![0, 0, 0]);
    assert_eq!(engine.buffer(BufferId::B), &vec![0, 0, 0]);
    assert!(!engine.transfer_complete());
    assert!(!engine.transfer_error());
    assert_eq!(engine.config().capacity, 3);
}

#[test]
fn engine_switches_buffers_when_one_is_full() {
    let mut engine = engine(3);
    assert!(!engine.transfer(10));
    assert!(!engine.transfer(20));
    assert_eq!(engine.remaining(), 1);
    assert!(!engine.transfer_complete());
    assert!(engine.transfer(30));
    assert!(engine.transfer_complete());
    assert_eq!(engine.current_target(), BufferId::B);
    assert_eq!(engine.remaining(), 3);
    assert_eq!(engine.buffer(BufferId::A), &vec![10, 20, 30]);
    engine.clear_transfer_complete();
    assert!(!engine.transfer_complete());
    assert!(!engine.transfer(40));
    assert_eq!(engine.buffer(BufferId::B), &vec![40, 0, 0]);
    assert_eq!(engine.buffer(BufferId::A), &vec![10, 20, 30]);
    assert!(!engine.transfer(50));
    assert!(engine.transfer(60));
    assert_eq!(engine.current_target(), BufferId::A);
    assert!(!engine.transfer(70));
    assert_eq!(engine.buffer(BufferId::A), &vec![70, 20, 30]);
}

#[test]
fn rearmed_engine_writes_the_same_buffer_from_its_first_slot() {
    let mut engine = engine(3);
    engine.transfer(1);
    engine.transfer(2);
    engine.rearm(0x2000_0000, 0x2000_0100, 3);
    assert!(!engine.transfer_error());
    assert_eq!(engine.remaining(), 3);
    assert_eq!(engine.current_target(), BufferId::A);
    assert_eq!(engine.config().dest_a, 0x2000_0000);
    assert_eq!(engine.config().dest_b, 0x2000_0100);
    engine.transfer(9);
    assert_eq!(engine.buffer(BufferId::A), &vec![9, 2, 0]);
}

#[test]
fn halted_engine_moves_nothing() {
    let mut engine = engine(1);
    assert!(engine.transfer(5));
    engine.raise_error();
    assert!(engine.transfer_error());
    assert!(!engine.transfer(6));
    assert_eq!(engine.buffer(BufferId::B), &vec![0]);
    engine.clear_transfer_complete();
    assert!(engine.transfer_error());
    assert!(!engine.transfer_complete());
}

#[test]
fn engine_pointed_elsewhere_halts_on_a_failed_access() {
    let mut moved = engine(3);
    moved.transfer(1);
    moved.rearm(0x2000_0000, 0x2000_0200, 3);
    assert!(moved.transfer_error());
    assert_eq!(moved.remaining(), 2);
    assert!(!moved.transfer(2));
    assert_eq!(moved.buffer(BufferId::A), &vec![1, 0, 0]);
    let mut longer = engine(3);
    longer.rearm(0x2000_0000, 0x2000_0100, 4);
    assert!(longer.transfer_error());
    let mut swapped = engine(3);
    swapped.rearm(0x2000_0100, 0x2000_0000, 3);
    assert!(swapped.transfer_error());
}
