//! Why a configuration is refused.

use vstd::prelude::*;

verus! {

/// A configuration that the hardware cannot take. It is found before
/// acquisition starts and never arises while sampling.
#[derive(Clone, Copy, Debug, PartialEq, Eq, Structural)]
pub enum ConfigurationError {
    /// The sample period does not fit the counter of the trigger source.
    PeriodUnrepresentable,
    /// The conversion sequence names no input channel.
    NoChannels,
    /// The conversion sequence is longer than the conversion unit can hold.
    TooManyChannels,
    /// The conversion sequence names an input that the conversion unit lacks.
    ChannelOutOfRange,
    /// A buffer with no sample slot.
    ZeroCapacity,
    /// A buffer address that is not a multiple of the sample width.
    Misaligned,
    /// A buffer that would reach past the end of the address space.
    BufferOutOfRange,
    /// The two buffers share memory.
    BuffersOverlap,
}

} // verus!
