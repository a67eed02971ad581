//! The trigger source: a free-running counter that paces the conversions.

use vstd::prelude::*;
use crate::error::ConfigurationError;

verus! {

/// How wide the counter of the trigger source is.
#[derive(Clone, Copy, Debug, PartialEq, Eq, Structural)]
pub enum CounterWidth {
    Bits16,
    Bits32,
}

impl CounterWidth {
    /// The longest period that the counter can count.
    pub open spec fn spec_max_period(self) -> u32 {
        match self {
            CounterWidth::Bits16 => 0xFFFF,
            CounterWidth::Bits32 => 0xFFFF_FFFF,
        }
    }

    /// The longest period that the counter can count.
    #[verifier::when_used_as_spec(spec_max_period)]
    pub fn max_period(self) -> (r: u32)
        ensures
            r == self.spec_max_period(),
    {
        match self {
            CounterWidth::Bits16 => 0xFFFF,
            CounterWidth::Bits32 => 0xFFFF_FFFF,
        }
    }
}

/// The state of the trigger source.
pub ghost struct TriggerModel {
    pub width: CounterWidth,
    /// Counter ticks from one trigger event to the next.
    pub period: u32,
    /// The counter counts and trigger events are emitted.
    pub running: bool,
}

impl TriggerModel {
    /// The period fits the counter.
    pub open spec fn wf(self) -> bool {
        self.period <= self.width.max_period()
    }
}

/// The trigger source.
pub struct TriggerSource {
    width: CounterWidth,
    period: u32,
    running: bool,
}

impl View for TriggerSource {
    type V = TriggerModel;

    closed spec fn view(&self) -> TriggerModel {
        TriggerModel { width: self.width, period: self.period, running: self.running }
    }
}

impl TriggerSource {
    /// Sets the counter up for one trigger event every `period` ticks, without
    /// starting it. Fails exactly when the period does not fit the counter.
    pub fn arm(width: CounterWidth, period: u64) -> (r: Result<TriggerSource, ConfigurationError>)
        ensures
            match r {
                Ok(trigger) => period <= width.max_period() && trigger@ == (TriggerModel {
                    width,
                    period: period as u32,
                    running: false,
                }) && trigger@.wf(),
                Err(e) => period > width.max_period() && e
                    == ConfigurationError::PeriodUnrepresentable,
            },
    {
        if period > width.max_period() as u64 {
            Err(ConfigurationError::PeriodUnrepresentable)
        } else {
            Ok(TriggerSource { width, period: period as u32, running: false })
        }
    }

    /// Enables counting.
    pub fn start(&mut self)
        ensures
            final(self)@ == (TriggerModel { running: true, ..old(self)@ }),
    {
        self.running = true;
    }

    /// Disables counting.
    pub fn stop(&mut self)
        ensures
            final(self)@ == (TriggerModel { running: false, ..old(self)@ }),
    {
        self.running = false;
    }

    /// Whether trigger events are emitted.
    pub fn is_running(&self) -> (r: bool)
        ensures
            r == self@.running,
    {
        self.running
    }

    /// Counter ticks from one trigger event to the next.
    pub fn period(&self) -> (r: u32)
        ensures
            r == self@.period,
    {
        self.period
    }

    /// How wide the counter is.
    pub fn width(&self) -> (r: CounterWidth)
        ensures
            r == self@.width,
    {
        self.width
    }
}

} // verus!
