//! The transfer engine: it copies every conversion result into one of two
//! alternating buffers and switches buffers by itself when one is full.

use vstd::prelude::*;
use crate::buffer::BufferId;
use crate::error::ConfigurationError;

verus! {

/// Bytes that one sample slot occupies in memory.
pub const SAMPLE_BYTES: u32 = 2;

/// One past the highest address the engine can reach.
pub const ADDRESS_SPACE: u64 = 0x1_0000_0000;

/// What the transfer engine is set up with, once.
///
/// The engine reads from `source` (the data register of the conversion unit,
/// never incremented) and writes `capacity` samples into the buffer at
/// `dest_a`, then `capacity` samples into the buffer at `dest_b`, and so on,
/// in circular double-buffer mode and in units of one sample.
#[derive(Clone, Copy, Debug, PartialEq, Eq, Structural)]
pub struct TransferConfig {
    pub source: u32,
    pub dest_a: u32,
    pub dest_b: u32,
    pub capacity: u16,
}

impl TransferConfig {
    /// Bytes that one buffer occupies.
    pub open spec fn span(self) -> int {
        SAMPLE_BYTES * self.capacity
    }

    /// Both buffers start on a sample boundary.
    pub open spec fn aligned(self) -> bool {
        self.dest_a % SAMPLE_BYTES == 0 && self.dest_b % SAMPLE_BYTES == 0
    }

    /// Both buffers end inside the address space.
    pub open spec fn in_range(self) -> bool {
        self.dest_a + self.span() <= ADDRESS_SPACE && self.dest_b + self.span() <= ADDRESS_SPACE
    }

    /// The buffers share no byte.
    pub open spec fn disjoint(self) -> bool {
        self.dest_a + self.span() <= self.dest_b || self.dest_b + self.span() <= self.dest_a
    }

    /// The engine can run on this configuration.
    pub open spec fn valid(self) -> bool {
        &&& self.capacity > 0
        &&& self.aligned()
        &&& self.in_range()
        &&& self.disjoint()
    }

    /// The first rule that the configuration breaks, if any.
    pub open spec fn verdict(self) -> Result<(), ConfigurationError> {
        if self.capacity == 0 {
            Err(ConfigurationError::ZeroCapacity)
        } else if !self.aligned() {
            Err(ConfigurationError::Misaligned)
        } else if !self.in_range() {
            Err(ConfigurationError::BufferOutOfRange)
        } else if !self.disjoint() {
            Err(ConfigurationError::BuffersOverlap)
        } else {
            Ok(())
        }
    }

    /// The address of a buffer.
    pub open spec fn spec_address(self, id: BufferId) -> u32 {
        match id {
            BufferId::A => self.dest_a,
            BufferId::B => self.dest_b,
        }
    }

    /// The address of a buffer.
    #[verifier::when_used_as_spec(spec_address)]
    pub fn address(self, id: BufferId) -> (r: u32)
        ensures
            r == self.spec_address(id),
    {
        match id {
            BufferId::A => self.dest_a,
            BufferId::B => self.dest_b,
        }
    }

    /// Checks the configuration against the rules of the engine.
    pub fn check(&self) -> (r: Result<(), ConfigurationError>)
        ensures
            r == self.verdict(),
            r is Ok <==> self.valid(),
    {
        let span: u64 = SAMPLE_BYTES as u64 * self.capacity as u64;
        assert(span == self.span());
        let a: u64 = self.dest_a as u64;
        let b: u64 = self.dest_b as u64;
        if self.capacity == 0 {
            Err(ConfigurationError::ZeroCapacity)
        } else if self.dest_a % SAMPLE_BYTES != 0 || self.dest_b % SAMPLE_BYTES != 0 {
            Err(ConfigurationError::Misaligned)
        } else if a + span > ADDRESS_SPACE || b + span > ADDRESS_SPACE {
            Err(ConfigurationError::BufferOutOfRange)
        } else if !(a + span <= b || b + span <= a) {
            Err(ConfigurationError::BuffersOverlap)
        } else {
            Ok(())
        }
    }
}

/// The state of the transfer engine: what it was set up with, which buffer it
/// writes, how far it has come, what both buffers hold, and the two
/// conditions it signals.
pub ghost struct EngineModel {
    pub config: TransferConfig,
    /// The buffer that the engine currently writes.
    pub target: BufferId,
    /// Samples still to be written into `target` before it is full.
    pub remaining: nat,
    pub buffer_a: Seq<u16>,
    pub buffer_b: Seq<u16>,
    /// A buffer was filled and the condition has not been cleared yet.
    pub complete: bool,
    /// A memory access failed; the engine has halted.
    pub fault: bool,
}

impl EngineModel {
    /// Sample slots per buffer.
    pub open spec fn capacity(self) -> nat {
        self.config.capacity as nat
    }

    /// What a buffer holds.
    pub open spec fn buffer(self, id: BufferId) -> Seq<u16> {
        match id {
            BufferId::A => self.buffer_a,
            BufferId::B => self.buffer_b,
        }
    }

    /// The same engine with other contents in one buffer.
    pub open spec fn with_buffer(self, id: BufferId, contents: Seq<u16>) -> EngineModel {
        match id {
            BufferId::A => EngineModel { buffer_a: contents, ..self },
            BufferId::B => EngineModel { buffer_b: contents, ..self },
        }
    }

    /// The count never leaves `1..=capacity` and both buffers have exactly
    /// `capacity` slots, so no write can land outside a buffer.
    pub open spec fn wf(self) -> bool {
        &&& self.config.valid()
        &&& 1 <= self.remaining <= self.capacity()
        &&& self.buffer_a.len() == self.capacity()
        &&& self.buffer_b.len() == self.capacity()
    }

    /// The engine right after it was set up: it writes buffer A from its first
    /// slot, and both buffers are zeroed.
    pub open spec fn initial(config: TransferConfig) -> EngineModel {
        EngineModel {
            config,
            target: BufferId::A,
            remaining: config.capacity as nat,
            buffer_a: Seq::new(config.capacity as nat, |i: int| 0u16),
            buffer_b: Seq::new(config.capacity as nat, |i: int| 0u16),
            complete: false,
            fault: false,
        }
    }

    /// Samples already written into the current target.
    pub open spec fn filled(self) -> nat {
        (self.capacity() - self.remaining) as nat
    }

    /// The next transfer fills the current target.
    pub open spec fn completes(self) -> bool {
        !self.fault && self.remaining == 1
    }

    /// One transfer: the sample goes into the next free slot of the target.
    /// When that was the last slot, the engine turns to the other buffer with
    /// a full count and signals completion. A halted engine does nothing.
    pub open spec fn transfer(self, sample: u16) -> EngineModel {
        if self.fault {
            self
        } else {
            let written = self.with_buffer(
                self.target,
                self.buffer(self.target).update(self.filled() as int, sample),
            );
            if self.remaining == 1 {
                EngineModel {
                    target: self.target.other(),
                    remaining: self.capacity(),
                    complete: true,
                    ..written
                }
            } else {
                EngineModel { remaining: (self.remaining - 1) as nat, ..written }
            }
        }
    }

    /// The destination registers and the count are written again. With the
    /// addresses and the capacity that the engine was set up with, the current
    /// target starts over from its first slot with a full count. With anything
    /// else the engine would leave its buffers: it halts on a failed memory
    /// access instead.
    pub open spec fn rearm(self, dest_a: u32, dest_b: u32, count: u16) -> EngineModel {
        if dest_a == self.config.dest_a && dest_b == self.config.dest_b && count
            == self.config.capacity {
            EngineModel { remaining: self.capacity(), ..self }
        } else {
            EngineModel { fault: true, ..self }
        }
    }
}

/// The transfer engine with its two buffers.
pub struct TransferEngine {
    config: TransferConfig,
    target: BufferId,
    remaining: u16,
    buffer_a: Vec<u16>,
    buffer_b: Vec<u16>,
    complete: bool,
    fault: bool,
}

impl View for TransferEngine {
    type V = EngineModel;

    closed spec fn view(&self) -> EngineModel {
        EngineModel {
            config: self.config,
            target: self.target,
            remaining: self.remaining as nat,
            buffer_a: self.buffer_a@,
            buffer_b: self.buffer_b@,
            complete: self.complete,
            fault: self.fault,
        }
    }
}

impl TransferEngine {
    /// Sets the engine up. Fails exactly when the configuration breaks a rule,
    /// with the first rule broken.
    pub fn new(config: TransferConfig) -> (r: Result<TransferEngine, ConfigurationError>)
        ensures
            match r {
                Ok(engine) => config.valid() && engine@ == EngineModel::initial(config)
                    && engine@.wf(),
                Err(e) => config.verdict() == Err::<(), ConfigurationError>(e),
            },
    {
        match config.check() {
            Err(e) => Err(e),
            Ok(()) => {
                let slots: usize = config.capacity as usize;
                let buffer_a: Vec<u16> = vec![0u16; slots];
                let buffer_b: Vec<u16> = vec![0u16; slots];
                let engine = TransferEngine {
                    config,
                    target: BufferId::A,
                    remaining: config.capacity,
                    buffer_a,
                    buffer_b,
                    complete: false,
                    fault: false,
                };
                assert(engine@.buffer_a =~= EngineModel::initial(config).buffer_a);
                assert(engine@.buffer_b =~= EngineModel::initial(config).buffer_b);
                Ok(engine)
            },
        }
    }

    /// Moves one conversion result into the current target. Returns whether
    /// this transfer filled the buffer, in which case the engine has already
    /// turned to the other buffer and signals completion.
    pub fn transfer(&mut self, sample: u16) -> (completed: bool)
        requires
            old(self)@.wf(),
        ensures
            final(self)@ == old(self)@.transfer(sample),
            final(self)@.wf(),
            completed == old(self)@.completes(),
    {
        if self.fault {
            return false;
        }
        let index: usize = (self.config.capacity - self.remaining) as usize;
        match self.target {
            BufferId::A => {
                self.buffer_a[index] = sample;
            },
            BufferId::B => {
                self.buffer_b[index] = sample;
            },
        }
        if self.remaining == 1 {
            self.target = self.target.other();
            self.remaining = self.config.capacity;
            self.complete = true;
            true
        } else {
            self.remaining = self.remaining - 1;
            false
        }
    }

    /// The buffer that the engine currently writes.
    pub fn current_target(&self) -> (r: BufferId)
        ensures
            r == self@.target,
    {
        self.target
    }

    /// Samples still to be written before the current target is full.
    pub fn remaining(&self) -> (r: u16)
        ensures
            r == self@.remaining,
    {
        self.remaining
    }

    /// What the engine was set up with.
    pub fn config(&self) -> (r: TransferConfig)
        ensures
            r == self@.config,
    {
        self.config
    }

    /// Whether a completion is signalled and not yet cleared.
    pub fn transfer_complete(&self) -> (r: bool)
        ensures
            r == self@.complete,
    {
        self.complete
    }

    /// Whether the engine has halted on a failed memory access.
    pub fn transfer_error(&self) -> (r: bool)
        ensures
            r == self@.fault,
    {
        self.fault
    }

    /// Clears the completion condition and nothing else: a pending transfer
    /// error stays signalled.
    pub fn clear_transfer_complete(&mut self)
        ensures
            final(self)@ == (EngineModel { complete: false, ..old(self)@ }),
    {
        self.complete = false;
    }

    /// A memory access failed: the engine signals the error and halts.
    pub fn raise_error(&mut self)
        ensures
            final(self)@ == (EngineModel { fault: true, ..old(self)@ }),
    {
        self.fault = true;
    }

    /// Writes the destination registers and the count again. With the
    /// addresses and the capacity that the engine was set up with, the current
    /// target is written from its first slot with a full count. With anything
    /// else the engine halts on a failed memory access.
    pub fn rearm(&mut self, dest_a: u32, dest_b: u32, count: u16)
        ensures
            final(self)@ == old(self)@.rearm(dest_a, dest_b, count),
    {
        if dest_a == self.config.dest_a && dest_b == self.config.dest_b && count
            == self.config.capacity {
            self.remaining = self.config.capacity;
        } else {
            self.fault = true;
        }
    }

    /// What a buffer holds.
    pub fn buffer(&self, id: BufferId) -> (r: &Vec<u16>)
        ensures
            r@ == self@.buffer(id),
    {
        match id {
            BufferId::A => &self.buffer_a,
            BufferId::B => &self.buffer_b,
        }
    }
}

} // verus!
