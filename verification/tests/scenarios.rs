use adc_pipeline::buffer::{BufferId, BufferRole};
use adc_pipeline::converter::{Resolution, INPUTS};
use adc_pipeline::engine::TransferConfig;
use adc_pipeline::pipeline::{Pipeline, Settings};
use adc_pipeline::state::SamplingState;
use adc_pipeline::trigger::CounterWidth;

fn settings(capacity: u16) -> Settings {
    Settings {
        width: CounterWidth::Bits32,
        period: 0x00FF_FFFF,
        channels: vec![0],
        resolution: Resolution::Bits12,
        transfer: TransferConfig {
            source: 0x4001_204C,
            dest_a: 0x2000_0000,
            dest_b: 0x2000_1000,
            capacity,
        },
    }
}

fn running(capacity: u16) -> Pipeline {
    let mut pipeline = Pipeline::configure(settings(capacity)).unwrap();
    pipeline.start();
    pipeline
}

fn level(value: u16) -> [u16; INPUTS] {
    let mut levels = [0u16; INPUTS];
    levels[0] = value;
    levels
}

#[test]
fn twelve_triggers_fill_buffer_a_then_twelve_more_fill_buffer_b() {
    let mut pipeline = running(12);
    for n in 1..12u16 {
        assert_eq!(pipeline.trigger(&level(n)), vec![]);
        assert_eq!(pipeline.remaining(), 12 - n);
    }
    assert_eq!(pipeline.trigger(&level(12)), vec![BufferId::A]);
    assert_eq!(pipeline.role(BufferId::A), BufferRole::Ready);
    assert_eq!(pipeline.role(BufferId::B), BufferRole::Active);
    assert_eq!(pipeline.ready(), Some(BufferId::A));
    assert_eq!(pipeline.remaining(), 12);
    assert_eq!(
        pipeline.read(BufferId::A),
        Some(&vec![1, 2, 3, 4, 5, 6, 7, 8, 9, 10, 11, 12])
    );
    assert!(pipeline.release(BufferId::A));
    for n in 13..24u16 {
        assert_eq!(pipeline.trigger(&level(n)), vec![]);
    }
    assert_eq!(pipeline.trigger(&level(24)), vec![BufferId::B]);
    assert_eq!(pipeline.role(BufferId::A), BufferRole::Active);
    assert_eq!(pipeline.role(BufferId::B), BufferRole::Ready);
    assert_eq!(
        pipeline.read(BufferId::B),
        Some(&vec![13, 14, 15, 16, 17, 18, 19, 20, 21, 22, 23, 24])
    );
}

#[test]
fn overrun_after_five_of_twelve_samples_resets_the_count() {
    let mut pipeline = running(12);
    for n in 1..=5u16 {
        pipeline.trigger(&level(n));
    }
    assert_eq!(pipeline.remaining(), 7);
    assert_eq!(pipeline.state(), SamplingState::Running);
    pipeline.inject_overrun();
    assert_eq!(pipeline.state(), SamplingState::Overrun);
    assert_eq!(pipeline.trigger(&level(99)), vec![]);
    assert_eq!(pipeline.remaining(), 7);
    pipeline.recover();
    assert_eq!(pipeline.state(), SamplingState::Running);
    assert_eq!(pipeline.remaining(), 12);
    assert_eq!(pipeline.active(), BufferId::A);
    assert_eq!(pipeline.role(BufferId::B), BufferRole::Idle);
    for n in 101..112u16 {
        assert_eq!(pipeline.trigger(&level(n)), vec![]);
    }
    assert_eq!(pipeline.trigger(&level(112)), vec![BufferId::A]);
    assert_eq!(
        pipeline.read(BufferId::A),
        Some(&vec![101, 102, 103, 104, 105, 106, 107, 108, 109, 110, 111, 112])
    );
}

#[test]
fn second_ready_buffer_leaves_the_unreleased_one_as_it_was_transferred() {
    let mut pipeline = running(12);
    let mut published = Vec::new();
    for n in 1..=24u16 {
        published.extend(pipeline.trigger(&level(n)));
    }
    assert_eq!(published, vec![BufferId::A, BufferId::B]);
    assert_eq!(
        pipeline.memory(BufferId::A),
        &vec![1, 2, 3, 4, 5, 6, 7, 8, 9, 10, 11, 12]
    );
    assert_eq!(
        pipeline.memory(BufferId::B),
        &vec![13, 14, 15, 16, 17, 18, 19, 20, 21, 22, 23, 24]
    );
    assert_eq!(pipeline.ready(), Some(BufferId::B));
    assert_eq!(pipeline.role(BufferId::A), BufferRole::Active);
    assert_eq!(pipeline.read(BufferId::A), None);
    assert!(!pipeline.release(BufferId::A));
    assert_eq!(pipeline.transfer_config(), settings(12).transfer);
}

#[test]
fn repeated_overruns_are_each_recovered_in_the_same_way() {
    let mut pipeline = running(12);
    for n in 1..=3u16 {
        pipeline.trigger(&level(n));
    }
    for _ in 0..5 {
        pipeline.inject_overrun();
        assert_eq!(pipeline.state(), SamplingState::Overrun);
        pipeline.recover();
        assert_eq!(pipeline.state(), SamplingState::Running);
        assert_eq!(pipeline.remaining(), 12);
        assert_eq!(pipeline.capacity(), 12);
        assert_eq!(pipeline.transfer_config(), settings(12).transfer);
        assert_eq!(pipeline.active(), BufferId::A);
    }
    pipeline.recover();
    assert_eq!(pipeline.state(), SamplingState::Running);
}

#[test]
fn delivered_samples_are_the_triggers_rounded_down_to_whole_buffers() {
    let mut pipeline = running(12);
    let mut published = Vec::new();
    for n in 0..100u16 {
        published.extend(pipeline.trigger(&level(n)));
    }
    assert_eq!(published.len(), 8);
    assert_eq!(published.len() * 12, 96);
    assert_eq!(pipeline.remaining(), 8);
    for (i, id) in published.iter().enumerate() {
        let expected = if i % 2 == 0 { BufferId::A } else { BufferId::B };
        assert_eq!(*id, expected);
    }
}

#[test]
fn nothing_is_sampled_before_start_or_after_stop() {
    let mut pipeline = Pipeline::configure(settings(2)).unwrap();
    assert_eq!(pipeline.state(), SamplingState::Configured);
    assert_eq!(pipeline.trigger(&level(7)), vec![]);
    assert_eq!(pipeline.remaining(), 2);
    pipeline.start();
    assert_eq!(pipeline.state(), SamplingState::Running);
    assert_eq!(pipeline.trigger(&level(7)), vec![]);
    assert_eq!(pipeline.remaining(), 1);
    pipeline.stop();
    assert_eq!(pipeline.state(), SamplingState::Stopped);
    assert_eq!(pipeline.trigger(&level(8)), vec![]);
    assert_eq!(pipeline.remaining(), 1);
    assert_eq!(pipeline.memory(BufferId::A), &vec![7, 0]);
    pipeline.start();
    assert_eq!(pipeline.state(), SamplingState::Stopped);
}

#[test]
fn transfer_error_stops_the_acquisition_for_good() {
    let mut pipeline = running(4);
    pipeline.trigger(&level(1));
    pipeline.inject_transfer_error();
    assert_eq!(pipeline.state(), SamplingState::Stopped);
    assert!(pipeline.is_faulted());
    assert_eq!(pipeline.trigger(&level(2)), vec![]);
    pipeline.recover();
    pipeline.start();
    assert_eq!(pipeline.state(), SamplingState::Stopped);
    assert_eq!(pipeline.memory(BufferId::A), &vec![1, 0, 0, 0]);
}

#[test]
fn every_channel_of_the_sequence_is_sampled_in_order() {
    let mut wide = settings(4);
    wide.channels = vec![3, 1, 18];
    wide.resolution = Resolution::Bits8;
    let mut pipeline = Pipeline::configure(wide).unwrap();
    pipeline.start();
    let mut levels = [0u16; INPUTS];
    levels[1] = 11;
    levels[3] = 33;
    levels[18] = 4000;
    assert_eq!(pipeline.trigger(&levels), vec![]);
    assert_eq!(pipeline.memory(BufferId::A), &vec![33, 11, 255, 0]);
    assert_eq!(pipeline.trigger(&levels), vec![BufferId::A]);
    assert_eq!(pipeline.memory(BufferId::A), &vec![33, 11, 255, 33]);
    assert_eq!(pipeline.memory(BufferId::B), &vec![11, 255, 0, 0]);
    assert_eq!(pipeline.remaining(), 2);
}

#[test]
fn one_trigger_can_fill_more_than_one_small_buffer() {
    let mut wide = settings(1);
    wide.channels = vec![0, 0, 0];
    let mut pipeline = Pipeline::configure(wide).unwrap();
    pipeline.start();
    assert_eq!(
        pipeline.trigger(&level(5)),
        vec![BufferId::A, BufferId::B, BufferId::A]
    );
    assert_eq!(pipeline.active(), BufferId::B);
    assert_eq!(pipeline.ready(), Some(BufferId::A));
}

fn exactly_one_active(pipeline: &Pipeline) -> bool {
    let a = pipeline.role(BufferId::A);
    let b = pipeline.role(BufferId::B);
    (a == BufferRole::Active) != (b == BufferRole::Active)
        && pipeline.role(pipeline.active()) == BufferRole::Active
        && pipeline.role(pipeline.active().other()) != BufferRole::Active
}

#[test]
fn exactly_one_buffer_is_active_whatever_happens() {
    let mut pipeline = Pipeline::configure(settings(3)).unwrap();
    assert!(exactly_one_active(&pipeline));
    pipeline.start();
    assert!(exactly_one_active(&pipeline));
    let mut published = Vec::new();
    for n in 0..40u16 {
        published.extend(pipeline.trigger(&level(n)));
        assert!(exactly_one_active(&pipeline));
        if n % 7 == 3 {
            pipeline.inject_overrun();
            assert!(exactly_one_active(&pipeline));
            published.extend(pipeline.trigger(&level(1000 + n)));
            pipeline.recover();
            assert!(exactly_one_active(&pipeline));
        }
        if n % 5 == 0 {
            pipeline.release(BufferId::A);
            pipeline.release(BufferId::B);
            assert!(exactly_one_active(&pipeline));
        }
    }
    pipeline.stop();
    assert!(exactly_one_active(&pipeline));
    pipeline.inject_transfer_error();
    assert!(exactly_one_active(&pipeline));
    assert!(!published.is_empty());
    for (i, id) in published.iter().enumerate() {
        let expected = if i % 2 == 0 { BufferId::A } else { BufferId::B };
        assert_eq!(*id, expected);
    }
    assert_eq!(pipeline.transfer_config(), settings(3).transfer);
}

#[test]
fn overrun_discards_the_interrupted_fill_only() {
    let mut pipeline = running(3);
    let mut published = Vec::new();
    for n in 1..=4u16 {
        published.extend(pipeline.trigger(&level(n)));
    }
    assert_eq!(published, vec![BufferId::A]);
    assert_eq!(pipeline.memory(BufferId::B), &vec![4, 0, 0]);
    pipeline.inject_overrun();
    pipeline.inject_overrun();
    assert_eq!(pipeline.state(), SamplingState::Overrun);
    pipeline.recover();
    assert_eq!(pipeline.read(BufferId::A), Some(&vec![1, 2, 3]));
    assert_eq!(pipeline.active(), BufferId::B);
    assert_eq!(pipeline.remaining(), 3);
    for n in 5..=7u16 {
        published.extend(pipeline.trigger(&level(n)));
    }
    assert_eq!(published, vec![BufferId::A, BufferId::B]);
    assert_eq!(pipeline.memory(BufferId::B), &vec![5, 6, 7]);
    assert_eq!(pipeline.memory(BufferId::A), &vec![1, 2, 3]);
}

#[test]
fn stopping_during_an_overrun_ends_the_acquisition() {
    let mut pipeline = running(3);
    pipeline.inject_overrun();
    pipeline.stop();
    assert_eq!(pipeline.state(), SamplingState::Stopped);
    pipeline.recover();
    assert_eq!(pipeline.state(), SamplingState::Stopped);
    assert_eq!(pipeline.trigger(&level(1)), vec![]);
    assert_eq!(pipeline.memory(BufferId::A), &vec![0, 0, 0]);
}
