//! The buffer hand-off protocol and the overrun recovery.
//!
//! The controller is the software side of the acquisition. It is told what
//! the hardware signalled, as an [`Event`], and answers with what has to be
//! done to the hardware, as an [`Action`]. It never touches a register
//! itself, so the same decisions serve a device and a model of one.
//!
//! The transfer engine switches buffers by itself, whether or not the
//! consumer is done with the other buffer. The controller follows it: a
//! filled buffer is always handed to the consumer, and a buffer that the
//! consumer has not given back by then is taken back for writing. The
//! consumer loses that buffer, and the hand-off says so; the stream of
//! samples is never held up.

use vstd::prelude::*;
use crate::buffer::{alternates, lemma_alternates_concat, BufferId, BufferRole};
use crate::engine::TransferConfig;
use crate::error::ConfigurationError;
use crate::state::SamplingState;

verus! {

/// What the controller is told.
#[derive(Clone, Copy, Debug, PartialEq, Eq, Structural)]
pub enum Event {
    /// Clocks, resets and pins are set up.
    BootstrapReady,
    /// Trigger source, conversion unit and transfer engine are armed; the
    /// transfer engine with this configuration.
    Armed(TransferConfig),
    /// The trigger source is to be enabled.
    Start,
    /// The trigger source is to be disabled.
    Stop,
    /// The transfer engine filled a buffer and now writes `current_target`.
    TransferComplete { current_target: BufferId },
    /// The transfer engine failed on a memory access.
    TransferError,
    /// The conversion unit lost a result.
    Overrun,
    /// The recovery that the controller asked for has been carried out.
    Recovered,
    /// The trigger source signalled a tick of its own.
    TriggerTick,
    /// The consumer is done with a buffer.
    Release(BufferId),
}

/// What the controller wants done.
#[derive(Clone, Copy, Debug, PartialEq, Eq, Structural)]
pub enum Action {
    /// Nothing.
    Nothing,
    /// Report the configuration error and stay idle.
    Refuse(ConfigurationError),
    /// Enable the trigger source.
    StartTrigger,
    /// Disable the trigger source.
    StopTrigger,
    /// Clear the completion condition, and only that one, and tell the
    /// consumer that `buffer` is ready: `length` samples at `address`.
    /// `displaced` says that the consumer still held the other buffer, which
    /// is taken back for writing.
    Publish { buffer: BufferId, address: u32, length: u16, displaced: bool },
    /// Clear the completion condition, and only that one.
    Acknowledge,
    /// Clear the overrun condition, point the transfer engine at the two
    /// buffers again, load its count with `count`, restart the conversion
    /// unit, and report back with [`Event::Recovered`].
    Recover { dest_a: u32, dest_b: u32, count: u16 },
    /// Disable the trigger source, report the transfer error and halt.
    Halt,
    /// Clear the conditions that the trigger source signalled.
    ClearTick,
}

/// The state of the controller.
pub ghost struct ControllerModel {
    pub state: SamplingState,
    /// The peripherals have been brought up.
    pub bootstrapped: bool,
    pub role_a: BufferRole,
    pub role_b: BufferRole,
    /// What the transfer engine was armed with; the recovery restores it.
    pub plan: TransferConfig,
    /// A transfer error was seen.
    pub faulted: bool,
}

impl ControllerModel {
    /// Before anything is set up. Buffer A is the first to be written.
    pub open spec fn initial() -> ControllerModel {
        ControllerModel {
            state: SamplingState::Uninitialized,
            bootstrapped: false,
            role_a: BufferRole::Active,
            role_b: BufferRole::Idle,
            plan: TransferConfig { source: 0, dest_a: 0, dest_b: 0, capacity: 0 },
            faulted: false,
        }
    }

    /// The role of a buffer.
    pub open spec fn role(self, id: BufferId) -> BufferRole {
        match id {
            BufferId::A => self.role_a,
            BufferId::B => self.role_b,
        }
    }

    /// The same controller with another role for one buffer.
    pub open spec fn with_role(self, id: BufferId, role: BufferRole) -> ControllerModel {
        match id {
            BufferId::A => ControllerModel { role_a: role, ..self },
            BufferId::B => ControllerModel { role_b: role, ..self },
        }
    }

    /// Exactly one buffer is active.
    pub open spec fn exclusive(self) -> bool {
        (self.role_a is Active) != (self.role_b is Active)
    }

    /// The buffer that is being written.
    pub open spec fn active(self) -> BufferId {
        if self.role_a is Active {
            BufferId::A
        } else {
            BufferId::B
        }
    }

    /// The buffer that the consumer may read, if there is one.
    pub open spec fn ready(self) -> Option<BufferId> {
        if self.role_a is Ready {
            Some(BufferId::A)
        } else if self.role_b is Ready {
            Some(BufferId::B)
        } else {
            None
        }
    }

    /// Exactly one buffer is active; past `Uninitialized` the peripherals are
    /// up and the plan is a valid configuration; a transfer error has stopped
    /// the acquisition.
    pub open spec fn wf(self) -> bool {
        &&& self.exclusive()
        &&& self.state !is Uninitialized ==> self.bootstrapped && self.plan.valid()
        &&& self.faulted ==> self.state is Stopped
    }

    /// A completion is handed on to the consumer when the acquisition has been
    /// started and has not failed, and when the buffer that the engine left is
    /// the one that was being written: a second signal for the same fill is
    /// not.
    pub open spec fn takes_completion(self, current_target: BufferId) -> bool {
        &&& self.state.is_sampling() || (self.state is Stopped && !self.faulted)
        &&& self.role(current_target.other()) is Active
    }

    /// The roles after a hand-off: the buffer that the engine left is ready,
    /// the one it writes now is active, whatever it was before.
    pub open spec fn handed_off(self, current_target: BufferId) -> ControllerModel {
        self.with_role(current_target.other(), BufferRole::Ready).with_role(
            current_target,
            BufferRole::Active,
        )
    }

    /// The state after an event.
    pub open spec fn next(self, event: Event) -> ControllerModel {
        match event {
            Event::BootstrapReady => if self.state is Uninitialized {
                ControllerModel { bootstrapped: true, ..self }
            } else {
                self
            },
            Event::Armed(config) => if self.state is Uninitialized && self.bootstrapped
                && config.valid() {
                ControllerModel { state: SamplingState::Configured, plan: config, ..self }
            } else {
                self
            },
            Event::Start => if self.state is Configured {
                ControllerModel { state: SamplingState::Running, ..self }
            } else {
                self
            },
            Event::Stop => if self.state is Uninitialized {
                self
            } else {
                ControllerModel { state: SamplingState::Stopped, ..self }
            },
            Event::TransferComplete { current_target } => if self.takes_completion(
                current_target,
            ) {
                self.handed_off(current_target)
            } else {
                self
            },
            Event::TransferError => if self.state is Uninitialized {
                self
            } else {
                ControllerModel { state: SamplingState::Stopped, faulted: true, ..self }
            },
            Event::Overrun => if self.state.is_sampling() {
                ControllerModel { state: SamplingState::Overrun, ..self }
            } else {
                self
            },
            Event::Recovered => if self.state is Overrun {
                ControllerModel { state: SamplingState::Running, ..self }
            } else {
                self
            },
            Event::TriggerTick => self,
            Event::Release(id) => if self.role(id) is Ready {
                self.with_role(id, BufferRole::Idle)
            } else {
                self
            },
        }
    }

    /// What the controller asks for in answer to an event.
    pub open spec fn action(self, event: Event) -> Action {
        match event {
            Event::BootstrapReady => Action::Nothing,
            Event::Armed(config) => if self.state is Uninitialized && self.bootstrapped {
                match config.verdict() {
                    Ok(_) => Action::Nothing,
                    Err(e) => Action::Refuse(e),
                }
            } else {
                Action::Nothing
            },
            Event::Start => if self.state is Configured {
                Action::StartTrigger
            } else {
                Action::Nothing
            },
            Event::Stop => if self.state is Uninitialized || self.state is Stopped {
                Action::Nothing
            } else {
                Action::StopTrigger
            },
            Event::TransferComplete { current_target } => if self.takes_completion(
                current_target,
            ) {
                Action::Publish {
                    buffer: current_target.other(),
                    address: self.plan.address(current_target.other()),
                    length: self.plan.capacity,
                    displaced: self.role(current_target) is Ready,
                }
            } else {
                Action::Acknowledge
            },
            Event::TransferError => if self.state is Uninitialized {
                Action::Nothing
            } else {
                Action::Halt
            },
            Event::Overrun => if self.state.is_sampling() {
                Action::Recover {
                    dest_a: self.plan.dest_a,
                    dest_b: self.plan.dest_b,
                    count: self.plan.capacity,
                }
            } else {
                Action::Nothing
            },
            Event::Recovered => Action::Nothing,
            Event::TriggerTick => Action::ClearTick,
            Event::Release(_) => Action::Nothing,
        }
    }
}

impl ControllerModel {
    /// The buffer that an event makes ready for the consumer, if it does.
    pub open spec fn publication(self, event: Event) -> Option<BufferId> {
        match self.action(event) {
            Action::Publish { buffer, .. } => Some(buffer),
            _ => None,
        }
    }

    /// The state after a sequence of events.
    pub open spec fn run(self, events: Seq<Event>) -> ControllerModel
        decreases events.len(),
    {
        if events.len() == 0 {
            self
        } else {
            self.next(events[0]).run(events.drop_first())
        }
    }

    /// The buffers that a sequence of events makes ready, in order.
    pub open spec fn published(self, events: Seq<Event>) -> Seq<BufferId>
        decreases events.len(),
    {
        if events.len() == 0 {
            Seq::empty()
        } else {
            let rest = self.next(events[0]).published(events.drop_first());
            match self.publication(events[0]) {
                Some(buffer) => seq![buffer] + rest,
                None => rest,
            }
        }
    }

    /// `rounds` times an overrun and the end of its recovery.
    pub open spec fn overruns(self, rounds: nat) -> ControllerModel
        decreases rounds,
    {
        if rounds == 0 {
            self
        } else {
            self.next(Event::Overrun).next(Event::Recovered).overruns((rounds - 1) as nat)
        }
    }
}

/// No event breaks the rules of the controller: whatever happens, exactly one
/// buffer is active and the other is ready or idle.
pub proof fn lemma_next_keeps_roles_exclusive(c: ControllerModel, event: Event)
    requires
        c.wf(),
    ensures
        c.next(event).wf(),
        c.next(event).exclusive(),
        !(c.next(event).role(c.next(event).active().other()) is Active),
{
}

/// Exactly one buffer is active after any sequence of events.
pub proof fn lemma_run_keeps_roles_exclusive(c: ControllerModel, events: Seq<Event>)
    requires
        c.wf(),
    ensures
        c.run(events).wf(),
        c.run(events).exclusive(),
    decreases events.len(),
{
    if events.len() > 0 {
        lemma_run_keeps_roles_exclusive(c.next(events[0]), events.drop_first());
    }
}

/// The acquisition never goes back in its life cycle: an event leaves the
/// stage or raises it, the only way back and forth is between `Running` and
/// `Overrun`, and `Stopped` is final.
pub proof fn lemma_life_cycle_monotonic(c: ControllerModel, event: Event)
    ensures
        c.state.stage() <= c.next(event).state.stage(),
        c.state is Stopped ==> c.next(event).state is Stopped,
        c.next(event).state is Running ==> c.state is Configured || c.state is Running
            || c.state is Overrun,
        c.next(event).state is Overrun ==> c.state is Running || c.state is Overrun,
{
}

/// Without a valid configuration the acquisition never starts.
pub proof fn lemma_never_runs_unconfigured(c: ControllerModel, events: Seq<Event>)
    requires
        c.state is Uninitialized,
        forall|i: int|
            0 <= i < events.len() ==> match #[trigger] events[i] {
                Event::Armed(config) => !config.valid(),
                _ => true,
            },
    ensures
        c.run(events).state is Uninitialized,
    decreases events.len(),
{
    if events.len() > 0 {
        let rest = events.drop_first();
        assert forall|i: int| 0 <= i < rest.len() implies match #[trigger] rest[i] {
            Event::Armed(config) => !config.valid(),
            _ => true,
        } by {
            assert(rest[i] == events[i + 1]);
        }
        lemma_never_runs_unconfigured(c.next(events[0]), rest);
    }
}

/// The buffers are made ready strictly in turn, beginning with the one that
/// is being written, whatever the events are: no buffer is announced twice
/// for one fill.
pub proof fn lemma_publications_alternate(c: ControllerModel, events: Seq<Event>)
    requires
        c.exclusive(),
    ensures
        alternates(c.published(events), c.active()),
    decreases events.len(),
{
    if events.len() > 0 {
        let after = c.next(events[0]);
        let rest = after.published(events.drop_first());
        lemma_publications_alternate(after, events.drop_first());
        match c.publication(events[0]) {
            Some(buffer) => {
                assert(buffer == c.active());
                assert(after.active() == buffer.other());
                assert(alternates(seq![buffer], buffer));
                lemma_alternates_concat(seq![buffer], rest, buffer);
            },
            None => {
                assert(after.active() == c.active());
            },
        }
    }
}

/// An overrun takes a running acquisition to `Overrun` and asks for the
/// engine to be pointed at the configured buffers with the configured count;
/// once that is done the controller is exactly where it was before.
pub proof fn lemma_recovery_restores(c: ControllerModel)
    requires
        c.state is Running,
    ensures
        c.next(Event::Overrun).state is Overrun,
        c.action(Event::Overrun) == (Action::Recover {
            dest_a: c.plan.dest_a,
            dest_b: c.plan.dest_b,
            count: c.plan.capacity,
        }),
        c.next(Event::Overrun).next(Event::Recovered) == c,
{
}

/// Any number of overruns in a row is handled like one: each is recovered
/// from, and the controller ends where it began.
pub proof fn lemma_recovery_repeats(c: ControllerModel, rounds: nat)
    requires
        c.state is Running,
    ensures
        c.overruns(rounds) == c,
    decreases rounds,
{
    if rounds > 0 {
        lemma_recovery_restores(c);
        lemma_recovery_repeats(c, (rounds - 1) as nat);
    }
}

/// The controller.
pub struct Controller {
    state: SamplingState,
    bootstrapped: bool,
    role_a: BufferRole,
    role_b: BufferRole,
    plan: TransferConfig,
    faulted: bool,
}

impl View for Controller {
    type V = ControllerModel;

    closed spec fn view(&self) -> ControllerModel {
        ControllerModel {
            state: self.state,
            bootstrapped: self.bootstrapped,
            role_a: self.role_a,
            role_b: self.role_b,
            plan: self.plan,
            faulted: self.faulted,
        }
    }
}

impl Controller {
    /// A controller for peripherals that are not set up yet.
    pub fn new() -> (r: Controller)
        ensures
            r@ == ControllerModel::initial(),
            r@.wf(),
    {
        Controller {
            state: SamplingState::Uninitialized,
            bootstrapped: false,
            role_a: BufferRole::Active,
            role_b: BufferRole::Idle,
            plan: TransferConfig { source: 0, dest_a: 0, dest_b: 0, capacity: 0 },
            faulted: false,
        }
    }

    /// Where the acquisition stands.
    pub fn state(&self) -> (r: SamplingState)
        ensures
            r == self@.state,
    {
        self.state
    }

    /// The role of a buffer.
    pub fn role(&self, id: BufferId) -> (r: BufferRole)
        ensures
            r == self@.role(id),
    {
        match id {
            BufferId::A => self.role_a,
            BufferId::B => self.role_b,
        }
    }

    /// The buffer that is being written.
    pub fn active(&self) -> (r: BufferId)
        ensures
            r == self@.active(),
    {
        match self.role_a {
            BufferRole::Active => BufferId::A,
            _ => BufferId::B,
        }
    }

    /// The buffer that the consumer may read, if there is one.
    pub fn ready(&self) -> (r: Option<BufferId>)
        ensures
            r == self@.ready(),
    {
        match self.role_a {
            BufferRole::Ready => Some(BufferId::A),
            _ => match self.role_b {
                BufferRole::Ready => Some(BufferId::B),
                _ => None,
            },
        }
    }

    /// Whether a transfer error was seen.
    pub fn is_faulted(&self) -> (r: bool)
        ensures
            r == self@.faulted,
    {
        self.faulted
    }

    /// What the transfer engine was armed with.
    pub fn plan(&self) -> (r: TransferConfig)
        ensures
            r == self@.plan,
    {
        self.plan
    }

    fn set_role(&mut self, id: BufferId, role: BufferRole)
        ensures
            final(self)@ == old(self)@.with_role(id, role),
    {
        match id {
            BufferId::A => {
                self.role_a = role;
            },
            BufferId::B => {
                self.role_b = role;
            },
        }
    }

    /// Takes an event and says what is to be done about it.
    pub fn handle(&mut self, event: Event) -> (action: Action)
        requires
            old(self)@.wf(),
        ensures
            final(self)@ == old(self)@.next(event),
            action == old(self)@.action(event),
            final(self)@.wf(),
    {
        match event {
            Event::BootstrapReady => {
                if self.state == SamplingState::Uninitialized {
                    self.bootstrapped = true;
                }
                Action::Nothing
            },
            Event::Armed(config) => {
                if self.state == SamplingState::Uninitialized && self.bootstrapped {
                    match config.check() {
                        Ok(()) => {
                            self.state = SamplingState::Configured;
                            self.plan = config;
                            Action::Nothing
                        },
                        Err(e) => Action::Refuse(e),
                    }
                } else {
                    Action::Nothing
                }
            },
            Event::Start => {
                if self.state == SamplingState::Configured {
                    self.state = SamplingState::Running;
                    Action::StartTrigger
                } else {
                    Action::Nothing
                }
            },
            Event::Stop => {
                match self.state {
                    SamplingState::Uninitialized => Action::Nothing,
                    SamplingState::Stopped => Action::Nothing,
                    _ => {
                        self.state = SamplingState::Stopped;
                        Action::StopTrigger
                    },
                }
            },
            Event::TransferComplete { current_target } => {
                let started: bool = self.state.is_sampling() || (self.state
                    == SamplingState::Stopped && !self.faulted);
                if started && self.role(current_target.other()) == BufferRole::Active {
                    let displaced: bool = self.role(current_target) == BufferRole::Ready;
                    self.set_role(current_target.other(), BufferRole::Ready);
                    self.set_role(current_target, BufferRole::Active);
                    Action::Publish {
                        buffer: current_target.other(),
                        address: self.plan.address(current_target.other()),
                        length: self.plan.capacity,
                        displaced,
                    }
                } else {
                    Action::Acknowledge
                }
            },
            Event::TransferError => {
                if self.state == SamplingState::Uninitialized {
                    Action::Nothing
                } else {
                    self.state = SamplingState::Stopped;
                    self.faulted = true;
                    Action::Halt
                }
            },
            Event::Overrun => {
                if self.state.is_sampling() {
                    self.state = SamplingState::Overrun;
                    Action::Recover {
                        dest_a: self.plan.dest_a,
                        dest_b: self.plan.dest_b,
                        count: self.plan.capacity,
                    }
                } else {
                    Action::Nothing
                }
            },
            Event::Recovered => {
                if self.state == SamplingState::Overrun {
                    self.state = SamplingState::Running;
                }
                Action::Nothing
            },
            Event::TriggerTick => Action::ClearTick,
            Event::Release(id) => {
                if self.role(id) == BufferRole::Ready {
                    self.set_role(id, BufferRole::Idle);
                }
                Action::Nothing
            },
        }
    }

    /// The consumer gives a buffer back. Returns whether the buffer was ready;
    /// a buffer that was not keeps its role.
    pub fn release(&mut self, id: BufferId) -> (released: bool)
        requires
            old(self)@.wf(),
        ensures
            final(self)@ == old(self)@.next(Event::Release(id)),
            released == (old(self)@.role(id) is Ready),
            final(self)@.wf(),
    {
        let released: bool = self.role(id) == BufferRole::Ready;
        self.handle(Event::Release(id));
        released
    }
}

} // verus!
