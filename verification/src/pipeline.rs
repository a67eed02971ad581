//! The whole acquisition: the controller together with models of the three
//! hardware units, wired as on a device.
//!
//! Every signal that a unit raises is taken to the controller at once, and
//! every action that the controller asks for is carried out on the units at
//! once, so the acquisition can be driven trigger by trigger without a device.

use vstd::prelude::*;
use crate::buffer::{BufferId, BufferRole};
use crate::controller::{Action, Controller, ControllerModel, Event};
use crate::converter::{
    sequence_valid,
    sequence_verdict,
    ConversionUnit,
    ConverterModel,
    Resolution,
    INPUTS,
};
use crate::engine::{EngineModel, TransferConfig, TransferEngine};
use crate::error::ConfigurationError;
use crate::state::SamplingState;
use crate::trigger::{CounterWidth, TriggerModel, TriggerSource};

verus! {

/// Everything the acquisition is set up with.
pub struct Settings {
    /// How wide the counter of the trigger source is.
    pub width: CounterWidth,
    /// Counter ticks from one trigger event to the next.
    pub period: u64,
    /// The inputs that one trigger event converts, in order.
    pub channels: Vec<u8>,
    /// How many bits a sample has.
    pub resolution: Resolution,
    /// Source, buffers and capacity of the transfer engine.
    pub transfer: TransferConfig,
}

impl Settings {
    /// The first rule that the settings break, if any: the trigger source is
    /// looked at first, the conversion unit second, the transfer engine last.
    pub open spec fn verdict(self) -> Result<(), ConfigurationError> {
        if self.period > self.width.max_period() {
            Err(ConfigurationError::PeriodUnrepresentable)
        } else if sequence_verdict(self.channels@) is Err {
            sequence_verdict(self.channels@)
        } else {
            self.transfer.verdict()
        }
    }

    /// The acquisition can be set up with these settings.
    pub open spec fn valid(self) -> bool {
        &&& self.period <= self.width.max_period()
        &&& sequence_valid(self.channels@)
        &&& self.transfer.valid()
    }
}

/// Something that happens to the acquisition.
pub ghost enum Step {
    /// The trigger source is enabled.
    Start,
    /// The trigger source is disabled.
    Stop,
    /// The trigger source fires, with these levels at the analog inputs.
    Trigger(Seq<u16>),
    /// The conversion unit loses a result.
    Overrun,
    /// The recovery from an overrun is carried out.
    Recover,
    /// The transfer engine fails on a memory access.
    TransferError,
    /// The consumer gives a buffer back.
    Release(BufferId),
}

/// The state of the acquisition: the controller and the three units.
pub ghost struct PipelineModel {
    pub controller: ControllerModel,
    pub trigger: TriggerModel,
    pub converter: ConverterModel,
    pub engine: EngineModel,
}

impl PipelineModel {
    /// Each part is well formed, and the parts agree: the controller plans
    /// with the configuration that the engine runs on, the buffer that the
    /// engine writes is the active one, the trigger source counts exactly
    /// while the acquisition samples, the conversion unit converts before and
    /// while the acquisition runs and has stalled while an overrun is being
    /// handled, and no completion is left pending.
    pub open spec fn wf(self) -> bool {
        &&& self.controller.wf()
        &&& self.trigger.wf()
        &&& self.converter.wf()
        &&& self.engine.wf()
        &&& self.controller.state !is Uninitialized
        &&& self.controller.plan == self.engine.config
        &&& self.controller.role(self.engine.target) is Active
        &&& self.trigger.running == self.controller.state.is_sampling()
        &&& self.controller.state is Overrun ==> self.converter.overrun
        &&& self.controller.state is Configured || self.controller.state is Running
            ==> self.converter.converting
        &&& self.engine.fault == self.controller.faulted
        &&& !self.engine.complete
    }

    /// The acquisition right after it was set up: configured and not started,
    /// the engine at the first slot of buffer A.
    pub open spec fn configured(
        width: CounterWidth,
        period: u32,
        channels: Seq<u8>,
        resolution: Resolution,
        transfer: TransferConfig,
    ) -> PipelineModel {
        PipelineModel {
            controller: ControllerModel::initial().next(Event::BootstrapReady).next(
                Event::Armed(transfer),
            ),
            trigger: TriggerModel { width, period, running: false },
            converter: ConverterModel { channels, resolution, converting: true, overrun: false },
            engine: EngineModel::initial(transfer),
        }
    }

    /// Where the acquisition stands.
    pub open spec fn state(self) -> SamplingState {
        self.controller.state
    }

    /// Sample slots per buffer.
    pub open spec fn capacity(self) -> nat {
        self.engine.capacity()
    }

    /// What an action of the controller does to the units.
    pub open spec fn perform(self, action: Action) -> PipelineModel {
        match action {
            Action::StartTrigger => PipelineModel {
                trigger: TriggerModel { running: true, ..self.trigger },
                ..self
            },
            Action::StopTrigger => PipelineModel {
                trigger: TriggerModel { running: false, ..self.trigger },
                ..self
            },
            Action::Halt => PipelineModel {
                trigger: TriggerModel { running: false, ..self.trigger },
                ..self
            },
            Action::Publish { .. } => PipelineModel {
                engine: EngineModel { complete: false, ..self.engine },
                ..self
            },
            Action::Acknowledge => PipelineModel {
                engine: EngineModel { complete: false, ..self.engine },
                ..self
            },
            Action::Recover { dest_a, dest_b, count } => PipelineModel {
                converter: ConverterModel { overrun: false, converting: true, ..self.converter },
                engine: self.engine.rearm(dest_a, dest_b, count),
                ..self
            },
            _ => self,
        }
    }

    /// An event is taken to the controller and its answer is carried out.
    pub open spec fn dispatch(self, event: Event) -> PipelineModel {
        PipelineModel { controller: self.controller.next(event), ..self }.perform(
            self.controller.action(event),
        )
    }

    /// One conversion result reaches the transfer engine. When it fills the
    /// buffer, the completion is handed to the controller.
    pub open spec fn sample(self, value: u16) -> PipelineModel {
        let moved = PipelineModel { engine: self.engine.transfer(value), ..self };
        if self.engine.completes() {
            moved.dispatch(Event::TransferComplete { current_target: moved.engine.target })
        } else {
            moved
        }
    }

    /// The buffer that the consumer is told of when one conversion result
    /// reaches the transfer engine, if any.
    pub open spec fn announced(self, value: u16) -> Option<BufferId> {
        if self.engine.completes() {
            self.controller.publication(
                Event::TransferComplete { current_target: self.engine.target.other() },
            )
        } else {
            None
        }
    }

    /// A run of conversion results reaches the transfer engine, in order.
    pub open spec fn samples(self, values: Seq<u16>) -> PipelineModel
        decreases values.len(),
    {
        if values.len() == 0 {
            self
        } else {
            self.sample(values[0]).samples(values.drop_first())
        }
    }

    /// The buffers that the consumer is told of during a run of conversion
    /// results, in order.
    pub open spec fn announcements(self, values: Seq<u16>) -> Seq<BufferId>
        decreases values.len(),
    {
        if values.len() == 0 {
            Seq::empty()
        } else {
            let rest = self.sample(values[0]).announcements(values.drop_first());
            match self.announced(values[0]) {
                Some(buffer) => seq![buffer] + rest,
                None => rest,
            }
        }
    }

    /// The buffers that the transfer engine fills during a run of conversion
    /// results, in the order in which it fills them.
    pub open spec fn completions(self, values: Seq<u16>) -> Seq<BufferId>
        decreases values.len(),
    {
        if values.len() == 0 {
            Seq::empty()
        } else {
            let rest = self.sample(values[0]).completions(values.drop_first());
            if self.engine.completes() {
                seq![self.engine.target] + rest
            } else {
                rest
            }
        }
    }

    /// The conversion results of one trigger event: none unless the trigger
    /// source counts, else what the conversion unit makes of the levels.
    pub open spec fn conversions(self, levels: Seq<u16>) -> Seq<u16> {
        if self.trigger.running {
            self.converter.sweep(levels)
        } else {
            Seq::empty()
        }
    }

    /// The conversion unit loses a result while the acquisition samples: it
    /// stalls, and the controller takes note. Nothing is converted otherwise,
    /// so nothing can be lost.
    pub open spec fn overrun(self) -> PipelineModel {
        if self.controller.state.is_sampling() {
            PipelineModel {
                controller: self.controller.next(Event::Overrun),
                converter: ConverterModel { overrun: true, converting: false, ..self.converter },
                ..self
            }
        } else {
            self
        }
    }

    /// The recovery that the controller asks for after an overrun is carried
    /// out and reported back.
    pub open spec fn recover(self) -> PipelineModel {
        if self.controller.state is Overrun {
            self.perform(self.controller.action(Event::Overrun)).dispatch(Event::Recovered)
        } else {
            self
        }
    }

    /// The transfer engine fails on a memory access and halts.
    pub open spec fn transfer_error(self) -> PipelineModel {
        PipelineModel { engine: EngineModel { fault: true, ..self.engine }, ..self }.dispatch(
            Event::TransferError,
        )
    }

    /// The acquisition after a step.
    pub open spec fn apply(self, step: Step) -> PipelineModel {
        match step {
            Step::Start => self.dispatch(Event::Start),
            Step::Stop => self.dispatch(Event::Stop),
            Step::Trigger(levels) => self.samples(self.conversions(levels)),
            Step::Overrun => self.overrun(),
            Step::Recover => self.recover(),
            Step::TransferError => self.transfer_error(),
            Step::Release(id) => self.dispatch(Event::Release(id)),
        }
    }

    /// The buffers that the consumer is told of during a step, in order.
    pub open spec fn notes(self, step: Step) -> Seq<BufferId> {
        match step {
            Step::Trigger(levels) => self.announcements(self.conversions(levels)),
            _ => Seq::empty(),
        }
    }

    /// `rounds` times an overrun and the recovery from it.
    pub open spec fn overruns(self, rounds: nat) -> PipelineModel
        decreases rounds,
    {
        if rounds == 0 {
            self
        } else {
            self.overrun().recover().overruns((rounds - 1) as nat)
        }
    }

    /// The conversion results of a sequence of trigger events, in order, as
    /// the units stand: one run of samples.
    pub open spec fn stream(self, steps: Seq<Step>) -> Seq<u16>
        decreases steps.len(),
    {
        if steps.len() == 0 {
            Seq::empty()
        } else {
            let head = match steps[0] {
                Step::Trigger(levels) => self.conversions(levels),
                _ => Seq::empty(),
            };
            head + self.stream(steps.drop_first())
        }
    }

    /// The acquisition after a sequence of steps.
    pub open spec fn run(self, steps: Seq<Step>) -> PipelineModel
        decreases steps.len(),
    {
        if steps.len() == 0 {
            self
        } else {
            self.apply(steps[0]).run(steps.drop_first())
        }
    }

    /// The buffers that the consumer is told of during a sequence of steps,
    /// in order.
    pub open spec fn trace(self, steps: Seq<Step>) -> Seq<BufferId>
        decreases steps.len(),
    {
        if steps.len() == 0 {
            Seq::empty()
        } else {
            self.notes(steps[0]) + self.apply(steps[0]).trace(steps.drop_first())
        }
    }
}

/// The acquisition on models of the hardware units.
pub struct Pipeline {
    controller: Controller,
    trigger: TriggerSource,
    converter: ConversionUnit,
    engine: TransferEngine,
}

impl View for Pipeline {
    type V = PipelineModel;

    closed spec fn view(&self) -> PipelineModel {
        PipelineModel {
            controller: self.controller@,
            trigger: self.trigger@,
            converter: self.converter@,
            engine: self.engine@,
        }
    }
}

impl Pipeline {
    /// Brings the units up and arms them, without starting the trigger
    /// source. Fails exactly when the settings break a rule, with the first
    /// rule broken; no acquisition exists then, so none can start.
    pub fn configure(settings: Settings) -> (r: Result<Pipeline, ConfigurationError>)
        ensures
            r is Ok <==> settings.valid(),
            match r {
                Ok(pipeline) => pipeline@ == PipelineModel::configured(
                    settings.width,
                    settings.period as u32,
                    settings.channels@,
                    settings.resolution,
                    settings.transfer,
                ) && pipeline@.wf() && pipeline@.state() is Configured,
                Err(e) => settings.verdict() == Err::<(), ConfigurationError>(e),
            },
    {
        let transfer = settings.transfer;
        let trigger = match TriggerSource::arm(settings.width, settings.period) {
            Ok(trigger) => trigger,
            Err(e) => {
                return Err(e);
            },
        };
        let mut converter = match ConversionUnit::configure(
            settings.channels,
            settings.resolution,
        ) {
            Ok(converter) => converter,
            Err(e) => {
                return Err(e);
            },
        };
        let engine = match TransferEngine::new(transfer) {
            Ok(engine) => engine,
            Err(e) => {
                return Err(e);
            },
        };
        converter.start();
        let mut controller = Controller::new();
        controller.handle(Event::BootstrapReady);
        controller.handle(Event::Armed(transfer));
        Ok(Pipeline { controller, trigger, converter, engine })
    }

    /// Carries an action of the controller out on the units.
    fn perform(&mut self, action: Action)
        ensures
            final(self)@ == old(self)@.perform(action),
    {
        match action {
            Action::StartTrigger => {
                self.trigger.start();
            },
            Action::StopTrigger => {
                self.trigger.stop();
            },
            Action::Halt => {
                self.trigger.stop();
            },
            Action::Publish { .. } => {
                self.engine.clear_transfer_complete();
            },
            Action::Acknowledge => {
                self.engine.clear_transfer_complete();
            },
            Action::Recover { dest_a, dest_b, count } => {
                self.converter.clear_overrun();
                self.engine.rearm(dest_a, dest_b, count);
                self.converter.start();
            },
            _ => {},
        }
    }

    /// Takes an event to the controller and carries its answer out.
    fn dispatch(&mut self, event: Event) -> (action: Action)
        requires
            old(self)@.controller.wf(),
        ensures
            final(self)@ == old(self)@.dispatch(event),
            action == old(self)@.controller.action(event),
    {
        let action = self.controller.handle(event);
        self.perform(action);
        action
    }

    /// Enables the trigger source of a configured acquisition, which is
    /// `Running` from then on. In any other state nothing changes.
    pub fn start(&mut self)
        requires
            old(self)@.wf(),
        ensures
            final(self)@ == old(self)@.apply(Step::Start),
            final(self)@.wf(),
    {
        self.dispatch(Event::Start);
    }

    /// Disables the trigger source for good. What was converted before is in
    /// the buffers; nothing is converted afterwards.
    pub fn stop(&mut self)
        requires
            old(self)@.wf(),
        ensures
            final(self)@ == old(self)@.apply(Step::Stop),
            final(self)@.wf(),
            final(self)@.state() is Stopped,
    {
        self.dispatch(Event::Stop);
    }

    /// The trigger source fires, with `levels` at the analog inputs. While
    /// the acquisition runs, every input of the sequence is converted and
    /// transferred, in order. Returns the buffers that became ready, in order.
    pub fn trigger(&mut self, levels: &[u16; INPUTS]) -> (published: Vec<BufferId>)
        requires
            old(self)@.wf(),
        ensures
            final(self)@ == old(self)@.apply(Step::Trigger(levels@)),
            published@ == old(self)@.notes(Step::Trigger(levels@)),
            final(self)@.wf(),
            final(self)@.state() == old(self)@.state(),
            final(self)@.engine.config == old(self)@.engine.config,
    {
        let mut published: Vec<BufferId> = Vec::new();
        if !self.trigger.is_running() {
            return published;
        }
        let samples: Vec<u16> = self.converter.sweep(levels);
        assert(samples@.subrange(0, samples@.len() as int) =~= samples@);
        let mut k: usize = 0;
        while k < samples.len()
            invariant
                k <= samples.len(),
                self@.wf(),
                self@.state() == old(self)@.state(),
                self@.engine.config == old(self)@.engine.config,
                samples@.len() > 0 ==> self@.state() is Running,
                old(self)@.samples(samples@) == self@.samples(
                    samples@.subrange(k as int, samples@.len() as int),
                ),
                old(self)@.announcements(samples@) == published@ + self@.announcements(
                    samples@.subrange(k as int, samples@.len() as int),
                ),
            decreases samples.len() - k,
        {
            let ghost rest = samples@.subrange(k as int, samples@.len() as int);
            assert(rest[0] == samples@[k as int]);
            assert(rest.drop_first() =~= samples@.subrange(k + 1, samples@.len() as int));
            let filled: bool = self.engine.transfer(samples[k]);
            if filled {
                let action = self.dispatch(
                    Event::TransferComplete { current_target: self.engine.current_target() },
                );
                match action {
                    Action::Publish { buffer, .. } => {
                        published.push(buffer);
                    },
                    _ => {},
                }
            }
            k = k + 1;
        }
        published
    }

    /// The conversion unit loses a result. While the acquisition samples, the
    /// unit stalls and the acquisition is in `Overrun` until [`Self::recover`]
    /// is called; nothing is transferred in between.
    pub fn inject_overrun(&mut self)
        requires
            old(self)@.wf(),
        ensures
            final(self)@ == old(self)@.apply(Step::Overrun),
            final(self)@.wf(),
    {
        if self.controller.state().is_sampling() {
            self.converter.flag_overrun();
            self.controller.handle(Event::Overrun);
        }
    }

    /// Recovers from an overrun: the overrun condition is cleared, the engine
    /// is pointed at the configured buffers with a full count, the conversion
    /// unit is restarted, and the acquisition is `Running` again. What the
    /// active buffer held of the interrupted fill is written over. Without an
    /// overrun nothing changes.
    pub fn recover(&mut self)
        requires
            old(self)@.wf(),
        ensures
            final(self)@ == old(self)@.apply(Step::Recover),
            final(self)@.wf(),
            final(self)@.engine.config == old(self)@.engine.config,
            old(self)@.state() is Overrun ==> final(self)@.state() is Running
                && final(self)@.engine.remaining == final(self)@.capacity(),
    {
        if self.controller.state() == SamplingState::Overrun {
            let action = self.controller.handle(Event::Overrun);
            self.perform(action);
            self.dispatch(Event::Recovered);
        }
    }

    /// The transfer engine fails on a memory access: the trigger source is
    /// disabled and the acquisition is `Stopped` for good.
    pub fn inject_transfer_error(&mut self)
        requires
            old(self)@.wf(),
        ensures
            final(self)@ == old(self)@.apply(Step::TransferError),
            final(self)@.wf(),
            final(self)@.state() is Stopped,
            final(self)@.controller.faulted,
    {
        self.engine.raise_error();
        self.dispatch(Event::TransferError);
    }

    /// The consumer gives a buffer back. Returns whether the buffer was
    /// ready; one that was not keeps its role.
    pub fn release(&mut self, id: BufferId) -> (released: bool)
        requires
            old(self)@.wf(),
        ensures
            final(self)@ == old(self)@.apply(Step::Release(id)),
            released == (old(self)@.controller.role(id) is Ready),
            final(self)@.wf(),
    {
        let released: bool = self.controller.role(id) == BufferRole::Ready;
        self.dispatch(Event::Release(id));
        released
    }

    /// Where the acquisition stands.
    pub fn state(&self) -> (r: SamplingState)
        ensures
            r == self@.state(),
    {
        self.controller.state()
    }

    /// The role of a buffer.
    pub fn role(&self, id: BufferId) -> (r: BufferRole)
        ensures
            r == self@.controller.role(id),
    {
        self.controller.role(id)
    }

    /// The buffer that is being written.
    pub fn active(&self) -> (r: BufferId)
        ensures
            r == self@.controller.active(),
    {
        self.controller.active()
    }

    /// The buffer that the consumer may read, if there is one.
    pub fn ready(&self) -> (r: Option<BufferId>)
        ensures
            r == self@.controller.ready(),
    {
        self.controller.ready()
    }

    /// Whether a transfer error has stopped the acquisition.
    pub fn is_faulted(&self) -> (r: bool)
        ensures
            r == self@.controller.faulted,
    {
        self.controller.is_faulted()
    }

    /// Samples still to be written before the active buffer is full.
    pub fn remaining(&self) -> (r: u16)
        ensures
            r == self@.engine.remaining,
    {
        self.engine.remaining()
    }

    /// Sample slots per buffer.
    pub fn capacity(&self) -> (r: u16)
        ensures
            r == self@.capacity(),
    {
        self.engine.config().capacity
    }

    /// What the transfer engine runs on.
    pub fn transfer_config(&self) -> (r: TransferConfig)
        ensures
            r == self@.engine.config,
    {
        self.engine.config()
    }

    /// The consumer reads a buffer: its samples if the buffer is ready,
    /// nothing if it is being written or was given back.
    pub fn read(&self, id: BufferId) -> (r: Option<&Vec<u16>>)
        ensures
            match r {
                Some(samples) => self@.controller.role(id) is Ready && samples@
                    == self@.engine.buffer(id),
                None => !(self@.controller.role(id) is Ready),
            },
    {
        if self.controller.role(id) == BufferRole::Ready {
            Some(self.engine.buffer(id))
        } else {
            None
        }
    }

    /// What the memory of a buffer holds, whatever its role.
    pub fn memory(&self, id: BufferId) -> (r: &Vec<u16>)
        ensures
            r@ == self@.engine.buffer(id),
    {
        self.engine.buffer(id)
    }
}

} // verus!
