//! The conversion unit: on every trigger event it converts each input of its
//! sequence, in order, into one sample.

use vstd::prelude::*;
use crate::error::ConfigurationError;

verus! {

/// Analog inputs of the conversion unit, numbered from zero.
pub const INPUTS: usize = 19;

/// The most conversions that one trigger event can start.
pub const MAX_SEQUENCE: usize = 16;

/// How many bits a sample has.
#[derive(Clone, Copy, Debug, PartialEq, Eq, Structural)]
pub enum Resolution {
    Bits12,
    Bits10,
    Bits8,
    Bits6,
}

impl Resolution {
    /// The largest sample.
    pub open spec fn spec_full_scale(self) -> u16 {
        match self {
            Resolution::Bits12 => 4095,
            Resolution::Bits10 => 1023,
            Resolution::Bits8 => 255,
            Resolution::Bits6 => 63,
        }
    }

    /// The largest sample.
    #[verifier::when_used_as_spec(spec_full_scale)]
    pub fn full_scale(self) -> (r: u16)
        ensures
            r == self.spec_full_scale(),
    {
        match self {
            Resolution::Bits12 => 4095,
            Resolution::Bits10 => 1023,
            Resolution::Bits8 => 255,
            Resolution::Bits6 => 63,
        }
    }

    /// The sample for a level at an input: the level itself, or full scale
    /// where the level is beyond it.
    pub open spec fn spec_sample(self, level: u16) -> u16 {
        if level > self.full_scale() {
            self.full_scale()
        } else {
            level
        }
    }

    /// The sample for a level at an input: the level itself, or full scale
    /// where the level is beyond it.
    #[verifier::when_used_as_spec(spec_sample)]
    pub fn sample(self, level: u16) -> (r: u16)
        ensures
            r == self.spec_sample(level),
    {
        let top: u16 = self.full_scale();
        if level > top {
            top
        } else {
            level
        }
    }
}

/// Every entry of the sequence names an input that exists.
pub open spec fn channels_in_range(channels: Seq<u8>) -> bool {
    forall|k: int| 0 <= k < channels.len() ==> (#[trigger] channels[k]) < INPUTS
}

/// The conversion unit can run this sequence.
pub open spec fn sequence_valid(channels: Seq<u8>) -> bool {
    &&& 1 <= channels.len() <= MAX_SEQUENCE
    &&& channels_in_range(channels)
}

/// The first rule that the sequence breaks, if any.
pub open spec fn sequence_verdict(channels: Seq<u8>) -> Result<(), ConfigurationError> {
    if channels.len() == 0 {
        Err(ConfigurationError::NoChannels)
    } else if channels.len() > MAX_SEQUENCE {
        Err(ConfigurationError::TooManyChannels)
    } else if !channels_in_range(channels) {
        Err(ConfigurationError::ChannelOutOfRange)
    } else {
        Ok(())
    }
}

/// The state of the conversion unit.
pub ghost struct ConverterModel {
    /// The inputs that one trigger event converts, in order.
    pub channels: Seq<u8>,
    pub resolution: Resolution,
    /// The unit was started and answers trigger events.
    pub converting: bool,
    /// A result was lost; the unit has stalled until it is restarted.
    pub overrun: bool,
}

impl ConverterModel {
    /// The sequence is one that the unit can run, and a unit that has lost a
    /// result does not convert.
    pub open spec fn wf(self) -> bool {
        &&& sequence_valid(self.channels)
        &&& self.overrun ==> !self.converting
    }

    /// The samples that one trigger event produces from the levels at the
    /// inputs: one for each entry of the sequence, in order; none while the
    /// unit does not convert.
    pub open spec fn sweep(self, levels: Seq<u16>) -> Seq<u16> {
        if self.converting {
            Seq::new(
                self.channels.len(),
                |k: int| self.resolution.sample(levels[self.channels[k] as int]),
            )
        } else {
            Seq::empty()
        }
    }
}

/// The conversion unit.
pub struct ConversionUnit {
    channels: Vec<u8>,
    resolution: Resolution,
    converting: bool,
    overrun: bool,
}

impl View for ConversionUnit {
    type V = ConverterModel;

    closed spec fn view(&self) -> ConverterModel {
        ConverterModel {
            channels: self.channels@,
            resolution: self.resolution,
            converting: self.converting,
            overrun: self.overrun,
        }
    }
}

impl ConversionUnit {
    /// Sets the unit up with a sequence of inputs and a resolution, without
    /// starting it. Every result is handed to the transfer engine. Fails
    /// exactly when the sequence breaks a rule, with the first rule broken.
    pub fn configure(channels: Vec<u8>, resolution: Resolution) -> (r: Result<
        ConversionUnit,
        ConfigurationError,
    >)
        ensures
            match r {
                Ok(unit) => sequence_valid(channels@) && unit@ == (ConverterModel {
                    channels: channels@,
                    resolution,
                    converting: false,
                    overrun: false,
                }) && unit@.wf(),
                Err(e) => sequence_verdict(channels@) == Err::<(), ConfigurationError>(e),
            },
    {
        if channels.len() == 0 {
            return Err(ConfigurationError::NoChannels);
        }
        if channels.len() > MAX_SEQUENCE {
            return Err(ConfigurationError::TooManyChannels);
        }
        let mut k: usize = 0;
        while k < channels.len()
            invariant
                1 <= channels.len() <= MAX_SEQUENCE,
                k <= channels.len(),
                forall|j: int| 0 <= j < k ==> (#[trigger] channels@[j]) < INPUTS,
            decreases channels.len() - k,
        {
            if channels[k] as usize >= INPUTS {
                assert(!channels_in_range(channels@)) by {
                    assert(channels@[k as int] >= INPUTS);
                }
                return Err(ConfigurationError::ChannelOutOfRange);
            }
            k = k + 1;
        }
        Ok(ConversionUnit { channels, resolution, converting: false, overrun: false })
    }

    /// Starts the unit, or starts it again after it stalled.
    pub fn start(&mut self)
        ensures
            final(self)@ == (ConverterModel { converting: !old(self)@.overrun, ..old(self)@ }),
    {
        self.converting = !self.overrun;
    }

    /// A result was lost: the unit signals the overrun and stalls.
    pub fn flag_overrun(&mut self)
        ensures
            final(self)@ == (ConverterModel { overrun: true, converting: false, ..old(self)@ }),
    {
        self.overrun = true;
        self.converting = false;
    }

    /// Clears the overrun condition. The unit stays stalled until it is
    /// started again.
    pub fn clear_overrun(&mut self)
        ensures
            final(self)@ == (ConverterModel { overrun: false, ..old(self)@ }),
    {
        self.overrun = false;
    }

    /// Whether an overrun is signalled.
    pub fn overrun(&self) -> (r: bool)
        ensures
            r == self@.overrun,
    {
        self.overrun
    }

    /// Whether the unit answers trigger events.
    pub fn is_converting(&self) -> (r: bool)
        ensures
            r == self@.converting,
    {
        self.converting
    }

    /// The inputs that one trigger event converts, in order.
    pub fn channels(&self) -> (r: &Vec<u8>)
        ensures
            r@ == self@.channels,
    {
        &self.channels
    }

    /// How many bits a sample has.
    pub fn resolution(&self) -> (r: Resolution)
        ensures
            r == self@.resolution,
    {
        self.resolution
    }

    /// One trigger event: converts the level at each input of the sequence,
    /// in order.
    pub fn sweep(&self, levels: &[u16; INPUTS]) -> (samples: Vec<u16>)
        requires
            self@.wf(),
        ensures
            samples@ == self@.sweep(levels@),
    {
        let mut samples: Vec<u16> = Vec::new();
        if !self.converting {
            return samples;
        }
        let mut k: usize = 0;
        while k < self.channels.len()
            invariant
                self@.wf(),
                self.converting,
                k <= self.channels.len(),
                samples@.len() == k,
                forall|j: int|
                    0 <= j < k ==> #[trigger] samples@[j] == self.resolution.sample(
                        levels@[self.channels@[j] as int],
                    ),
            decreases self.channels.len() - k,
        {
            let input: usize = self.channels[k] as usize;
            samples.push(self.resolution.sample(levels[input]));
            k = k + 1;
        }
        assert(samples@ =~= self@.sweep(levels@));
        samples
    }
}

} // verus!
