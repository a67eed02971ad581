use adc_pipeline::buffer::{BufferId, BufferRole};
use adc_pipeline::controller::{Action, Controller, Event};
use adc_pipeline::engine::TransferConfig;
use adc_pipeline::error::ConfigurationError;
use adc_pipeline::state::SamplingState;

fn plan() -> TransferConfig {
    TransferConfig { source: 0x4001_204C, dest_a: 0x2000_0000, dest_b: 0x2000_0018, capacity: 12 }
}

fn running() -> Controller {
    let mut controller = Controller::new();
    controller.handle(Event::BootstrapReady);
    controller.handle(Event::Armed(plan()));
    controller.handle(Event::Start);
    controller
}

fn complete(current_target: BufferId) -> Event {
    Event::TransferComplete { current_target }
}

#[test]
fn controller_walks_through_its_life_cycle() {
    let mut controller = Controller::new();
    assert_eq!(controller.state(), SamplingState::Uninitialized);
    assert_eq!(controller.role(BufferId::A), BufferRole::Active);
    assert_eq!(controller.role(BufferId::B), BufferRole::Idle);
    assert_eq!(controller.handle(Event::Armed(plan())), Action::Nothing);
    assert_eq!(controller.state(), SamplingState::Uninitialized);
    assert_eq!(controller.handle(Event::Start), Action::Nothing);
    assert_eq!(controller.handle(Event::Stop), Action::Nothing);
    assert_eq!(controller.handle(Event::TransferError), Action::Nothing);
    assert_eq!(controller.state(), SamplingState::Uninitialized);
    assert_eq!(controller.handle(Event::BootstrapReady), Action::Nothing);
    assert_eq!(controller.handle(Event::Armed(plan())), Action::Nothing);
    assert_eq!(controller.state(), SamplingState::Configured);
    assert_eq!(controller.plan(), plan());
    assert_eq!(controller.handle(Event::Overrun), Action::Nothing);
    assert_eq!(controller.handle(Event::Start), Action::StartTrigger);
    assert_eq!(controller.state(), SamplingState::Running);
    assert_eq!(controller.handle(Event::Start), Action::Nothing);
    assert_eq!(controller.handle(Event::Stop), Action::StopTrigger);
    assert_eq!(controller.state(), SamplingState::Stopped);
    assert_eq!(controller.handle(Event::Stop), Action::Nothing);
    assert_eq!(controller.handle(Event::Start), Action::Nothing);
    assert_eq!(controller.handle(Event::Overrun), Action::Nothing);
    assert_eq!(controller.handle(Event::Recovered), Action::Nothing);
    assert_eq!(controller.state(), SamplingState::Stopped);
    assert!(!controller.is_faulted());
}

#[test]
fn invalid_configuration_is_refused_and_never_runs() {
    let mut controller = Controller::new();
    controller.handle(Event::BootstrapReady);
    let mut bad = plan();
    bad.capacity = 0;
    assert_eq!(
        controller.handle(Event::Armed(bad)),
        Action::Refuse(ConfigurationError::ZeroCapacity)
    );
    assert_eq!(controller.state(), SamplingState::Uninitialized);
    assert_eq!(controller.handle(Event::Start), Action::Nothing);
    assert_eq!(controller.state(), SamplingState::Uninitialized);
}

#[test]
fn completions_hand_the_buffers_over_in_turn() {
    let mut controller = running();
    assert_eq!(controller.active(), BufferId::A);
    assert_eq!(controller.ready(), None);
    assert_eq!(
        controller.handle(complete(BufferId::B)),
        Action::Publish { buffer: BufferId::A, address: 0x2000_0000, length: 12, displaced: false }
    );
    assert_eq!(controller.role(BufferId::A), BufferRole::Ready);
    assert_eq!(controller.role(BufferId::B), BufferRole::Active);
    assert_eq!(controller.ready(), Some(BufferId::A));
    assert_eq!(controller.active(), BufferId::B);
    assert!(controller.release(BufferId::A));
    assert_eq!(controller.role(BufferId::A), BufferRole::Idle);
    assert_eq!(controller.ready(), None);
    assert_eq!(
        controller.handle(complete(BufferId::A)),
        Action::Publish { buffer: BufferId::B, address: 0x2000_0018, length: 12, displaced: false }
    );
    assert_eq!(controller.role(BufferId::A), BufferRole::Active);
    assert_eq!(controller.role(BufferId::B), BufferRole::Ready);
}

#[test]
fn second_signal_for_the_same_fill_is_only_acknowledged() {
    let mut controller = running();
    controller.handle(complete(BufferId::B));
    assert_eq!(controller.handle(complete(BufferId::B)), Action::Acknowledge);
    assert_eq!(controller.role(BufferId::A), BufferRole::Ready);
    assert_eq!(controller.role(BufferId::B), BufferRole::Active);
}

#[test]
fn unreleased_buffer_is_taken_back_for_writing() {
    let mut controller = running();
    controller.handle(complete(BufferId::B));
    assert_eq!(
        controller.handle(complete(BufferId::A)),
        Action::Publish { buffer: BufferId::B, address: 0x2000_0018, length: 12, displaced: true }
    );
    assert_eq!(controller.role(BufferId::A), BufferRole::Active);
    assert_eq!(controller.role(BufferId::B), BufferRole::Ready);
    assert_eq!(controller.ready(), Some(BufferId::B));
}

#[test]
fn release_only_frees_a_ready_buffer() {
    let mut controller = running();
    assert!(!controller.release(BufferId::A));
    assert!(!controller.release(BufferId::B));
    assert_eq!(controller.role(BufferId::A), BufferRole::Active);
    assert_eq!(controller.role(BufferId::B), BufferRole::Idle);
    controller.handle(complete(BufferId::B));
    assert_eq!(controller.handle(Event::Release(BufferId::A)), Action::Nothing);
    assert_eq!(controller.role(BufferId::A), BufferRole::Idle);
    assert!(!controller.release(BufferId::A));
}

#[test]
fn overrun_asks_for_the_configured_addresses_and_count() {
    let mut controller = running();
    let recover = Action::Recover { dest_a: 0x2000_0000, dest_b: 0x2000_0018, count: 12 };
    assert_eq!(controller.handle(Event::Overrun), recover);
    assert_eq!(controller.state(), SamplingState::Overrun);
    assert_eq!(controller.handle(Event::Overrun), recover);
    assert_eq!(controller.state(), SamplingState::Overrun);
    assert_eq!(controller.handle(Event::Recovered), Action::Nothing);
    assert_eq!(controller.state(), SamplingState::Running);
    assert_eq!(controller.handle(Event::Recovered), Action::Nothing);
    assert_eq!(controller.state(), SamplingState::Running);
    assert_eq!(controller.plan(), plan());
}

#[test]
fn completion_during_an_overrun_is_still_handed_over() {
    let mut controller = running();
    controller.handle(Event::Overrun);
    assert_eq!(
        controller.handle(complete(BufferId::B)),
        Action::Publish { buffer: BufferId::A, address: 0x2000_0000, length: 12, displaced: false }
    );
    assert_eq!(controller.state(), SamplingState::Overrun);
}

#[test]
fn transfer_error_halts_and_nothing_is_handed_over_afterwards() {
    let mut controller = running();
    assert_eq!(controller.handle(Event::TransferError), Action::Halt);
    assert_eq!(controller.state(), SamplingState::Stopped);
    assert!(controller.is_faulted());
    assert_eq!(controller.handle(complete(BufferId::B)), Action::Acknowledge);
    assert_eq!(controller.role(BufferId::A), BufferRole::Active);
    assert_eq!(controller.handle(Event::Overrun), Action::Nothing);
    assert_eq!(controller.handle(Event::Start), Action::Nothing);
    assert_eq!(controller.state(), SamplingState::Stopped);
}

#[test]
fn transfer_in_flight_at_stop_is_still_handed_over() {
    let mut controller = running();
    controller.handle(Event::Stop);
    assert_eq!(
        controller.handle(complete(BufferId::B)),
        Action::Publish { buffer: BufferId::A, address: 0x2000_0000, length: 12, displaced: false }
    );
    assert_eq!(controller.state(), SamplingState::Stopped);
}

#[test]
fn completion_before_start_is_only_acknowledged() {
    let mut controller = Controller::new();
    controller.handle(Event::BootstrapReady);
    controller.handle(Event::Armed(plan()));
    assert_eq!(controller.handle(complete(BufferId::B)), Action::Acknowledge);
    assert_eq!(controller.role(BufferId::A), BufferRole::Active);
}

#[test]
fn trigger_tick_only_asks_for_its_flags_to_be_cleared() {
    let mut controller = running();
    assert_eq!(controller.handle(Event::TriggerTick), Action::ClearTick);
    assert_eq!(controller.state(), SamplingState::Running);
    assert_eq!(controller.role(BufferId::A), BufferRole::Active);
}

#[test]
fn sampling_states_are_running_and_overrun() {
    assert!(SamplingState::Running.is_sampling());
    assert!(SamplingState::Overrun.is_sampling());
    assert!(!SamplingState::Uninitialized.is_sampling());
    assert!(!SamplingState::Configured.is_sampling());
    assert!(!SamplingState::Stopped.is_sampling());
    assert_eq!(BufferId::A.other(), BufferId::B);
    assert_eq!(BufferId::B.other(), BufferId::A);
}
