//! The words that pass between the controller and the registers of the
//! transfer engine and of the conversion unit, bit for bit.
//!
//! A flag of a status word is named by its place value: the flag at bit 5 by
//! `0x20`.

use vstd::prelude::*;
use crate::buffer::BufferId;
use crate::controller::{Action, Event};
use crate::converter::{sequence_valid, ConversionUnit, Resolution};

verus! {

/// Status of the transfer engine: the stream has filled a buffer.
pub const TRANSFER_COMPLETE: u32 = 0x20;

/// Status of the transfer engine: the stream has filled half a buffer.
pub const HALF_TRANSFER: u32 = 0x10;

/// Status of the transfer engine: a memory access of the stream failed.
pub const TRANSFER_ERROR: u32 = 0x08;

/// Control word of the stream: the engine writes the second buffer.
pub const CURRENT_TARGET: u32 = 0x8_0000;

/// Status of the conversion unit: a result was lost.
pub const OVERRUN: u32 = 0x20;

/// The flag with place value `place` is set in `word`.
pub open spec fn holds(word: u32, place: u32) -> bool {
    (word / place) % 2 == 1
}

/// The buffer that a control word names as the one being written.
pub open spec fn spec_current_target(control: u32) -> BufferId {
    if holds(control, CURRENT_TARGET) {
        BufferId::B
    } else {
        BufferId::A
    }
}

/// The buffer that a control word names as the one being written.
#[verifier::when_used_as_spec(spec_current_target)]
pub fn current_target(control: u32) -> (r: BufferId)
    ensures
        r == spec_current_target(control),
{
    assert((control & 0x8_0000 != 0) == ((control / 0x8_0000) % 2 == 1)) by (bit_vector);
    if control & CURRENT_TARGET != 0 {
        BufferId::B
    } else {
        BufferId::A
    }
}

/// What the transfer engine signals with a status word, given the control
/// word read with it. An error goes before a completion signalled with it, so
/// that it cannot be missed; a half-filled buffer is no event.
pub open spec fn spec_stream_event(status: u32, control: u32) -> Option<Event> {
    if holds(status, TRANSFER_ERROR) {
        Some(Event::TransferError)
    } else if holds(status, TRANSFER_COMPLETE) {
        Some(Event::TransferComplete { current_target: current_target(control) })
    } else {
        None
    }
}

/// What the transfer engine signals with a status word, given the control
/// word read with it. An error goes before a completion signalled with it, so
/// that it cannot be missed; a half-filled buffer is no event.
#[verifier::when_used_as_spec(spec_stream_event)]
pub fn stream_event(status: u32, control: u32) -> (event: Option<Event>)
    ensures
        event == spec_stream_event(status, control),
{
    assert((status & 0x08 != 0) == ((status / 0x08) % 2 == 1)) by (bit_vector);
    assert((status & 0x20 != 0) == ((status / 0x20) % 2 == 1)) by (bit_vector);
    if status & TRANSFER_ERROR != 0 {
        Some(Event::TransferError)
    } else if status & TRANSFER_COMPLETE != 0 {
        Some(Event::TransferComplete { current_target: current_target(control) })
    } else {
        None
    }
}

/// Whether a status word of the conversion unit signals a lost result.
pub fn overrun_signalled(status: u32) -> (r: bool)
    ensures
        r == holds(status, OVERRUN),
{
    assert((status & 0x20 != 0) == ((status / 0x20) % 2 == 1)) by (bit_vector);
    status & OVERRUN != 0
}

/// The flags that an action clears in the status of the transfer engine: the
/// completion for a hand-off or an acknowledgement, the error for a halt,
/// none otherwise. Never more than the one flag that was acted upon.
pub open spec fn spec_cleared_flags(action: Action) -> u32 {
    match action {
        Action::Publish { .. } => TRANSFER_COMPLETE,
        Action::Acknowledge => TRANSFER_COMPLETE,
        Action::Halt => TRANSFER_ERROR,
        _ => 0,
    }
}

/// The flags that an action clears in the status of the transfer engine: the
/// completion for a hand-off or an acknowledgement, the error for a halt,
/// none otherwise. Never more than the one flag that was acted upon.
#[verifier::when_used_as_spec(spec_cleared_flags)]
pub fn cleared_flags(action: Action) -> (flags: u32)
    ensures
        flags == spec_cleared_flags(action),
{
    match action {
        Action::Publish { .. } => TRANSFER_COMPLETE,
        Action::Acknowledge => TRANSFER_COMPLETE,
        Action::Halt => TRANSFER_ERROR,
        _ => 0,
    }
}

/// How many bytes one transfer moves.
#[derive(Clone, Copy, Debug, PartialEq, Eq, Structural)]
pub enum TransferWidth {
    Byte,
    HalfWord,
    Word,
}

impl TransferWidth {
    /// The value of the field that selects this width.
    pub open spec fn spec_code(self) -> u32 {
        match self {
            TransferWidth::Byte => 0,
            TransferWidth::HalfWord => 1,
            TransferWidth::Word => 2,
        }
    }

    /// The value of the field that selects this width.
    #[verifier::when_used_as_spec(spec_code)]
    pub fn code(self) -> (r: u32)
        ensures
            r == self.spec_code(),
    {
        match self {
            TransferWidth::Byte => 0,
            TransferWidth::HalfWord => 1,
            TransferWidth::Word => 2,
        }
    }
}

/// How a stream is served against the other streams of the engine.
#[derive(Clone, Copy, Debug, PartialEq, Eq, Structural)]
pub enum Priority {
    Low,
    Medium,
    High,
    VeryHigh,
}

impl Priority {
    /// The value of the field that selects this priority.
    pub open spec fn spec_code(self) -> u32 {
        match self {
            Priority::Low => 0,
            Priority::Medium => 1,
            Priority::High => 2,
            Priority::VeryHigh => 3,
        }
    }

    /// The value of the field that selects this priority.
    #[verifier::when_used_as_spec(spec_code)]
    pub fn code(self) -> (r: u32)
        ensures
            r == self.spec_code(),
    {
        match self {
            Priority::Low => 0,
            Priority::Medium => 1,
            Priority::High => 2,
            Priority::VeryHigh => 3,
        }
    }
}

/// The fields of the control word of a stream that moves data from a
/// peripheral to memory in single transfers.
#[derive(Clone, Copy, Debug, PartialEq, Eq, Structural)]
pub struct StreamControl {
    /// The request line that paces the stream; the field has three bits, and
    /// only the low three bits of the number are used.
    pub channel: u8,
    pub priority: Priority,
    /// The engine alternates between two memory buffers.
    pub double_buffer: bool,
    pub memory_width: TransferWidth,
    pub peripheral_width: TransferWidth,
    /// The memory address moves on after each transfer.
    pub memory_increment: bool,
    /// The peripheral address moves on after each transfer.
    pub peripheral_increment: bool,
    /// The count is loaded again when it reaches zero.
    pub circular: bool,
    /// A filled buffer raises an interrupt.
    pub complete_interrupt: bool,
    /// A half-filled buffer raises an interrupt.
    pub half_interrupt: bool,
    /// A failed memory access raises an interrupt.
    pub error_interrupt: bool,
    /// The stream is enabled.
    pub enable: bool,
}

/// One if the flag is set, zero if not.
pub open spec fn spec_unit(flag: bool) -> u32 {
    if flag {
        1
    } else {
        0
    }
}

/// One if the flag is set, zero if not.
#[verifier::when_used_as_spec(spec_unit)]
pub fn unit(flag: bool) -> (r: u32)
    ensures
        r == spec_unit(flag),
{
    if flag {
        1
    } else {
        0
    }
}

impl StreamControl {
    /// The control word: every field at its place, every other bit zero.
    pub open spec fn spec_word(self) -> u32 {
        unit(self.enable) | unit(self.error_interrupt) << 2 | unit(self.half_interrupt) << 3
            | unit(self.complete_interrupt) << 4 | unit(self.circular) << 8 | unit(
            self.peripheral_increment,
        ) << 9 | unit(self.memory_increment) << 10 | self.peripheral_width.code() << 11
            | self.memory_width.code() << 13 | self.priority.code() << 16 | unit(
            self.double_buffer,
        ) << 18 | ((self.channel % 8) as u32) << 25
    }

    /// The control word: every field at its place, every other bit zero.
    #[verifier::when_used_as_spec(spec_word)]
    pub fn word(self) -> (r: u32)
        ensures
            r == self.spec_word(),
    {
        unit(self.enable) | unit(self.error_interrupt) << 2 | unit(self.half_interrupt) << 3
            | unit(self.complete_interrupt) << 4 | unit(self.circular) << 8 | unit(
            self.peripheral_increment,
        ) << 9 | unit(self.memory_increment) << 10 | self.peripheral_width.code() << 11
            | self.memory_width.code() << 13 | self.priority.code() << 16 | unit(
            self.double_buffer,
        ) << 18 | ((self.channel % 8) as u32) << 25
    }

    /// The setup for the acquisition: samples of two bytes, from a fixed
    /// peripheral address into memory that moves on, circular, alternating
    /// between two buffers, with interrupts for a filled buffer and for a
    /// failed access, at the highest priority, not yet enabled.
    pub open spec fn spec_acquisition(channel: u8) -> StreamControl {
        StreamControl {
            channel,
            priority: Priority::VeryHigh,
            double_buffer: true,
            memory_width: TransferWidth::HalfWord,
            peripheral_width: TransferWidth::HalfWord,
            memory_increment: true,
            peripheral_increment: false,
            circular: true,
            complete_interrupt: true,
            half_interrupt: false,
            error_interrupt: true,
            enable: false,
        }
    }

    /// The setup for the acquisition: samples of two bytes, from a fixed
    /// peripheral address into memory that moves on, circular, alternating
    /// between two buffers, with interrupts for a filled buffer and for a
    /// failed access, at the highest priority, not yet enabled.
    #[verifier::when_used_as_spec(spec_acquisition)]
    pub fn acquisition(channel: u8) -> (r: StreamControl)
        ensures
            r == Self::spec_acquisition(channel),
    {
        StreamControl {
            channel,
            priority: Priority::VeryHigh,
            double_buffer: true,
            memory_width: TransferWidth::HalfWord,
            peripheral_width: TransferWidth::HalfWord,
            memory_increment: true,
            peripheral_increment: false,
            circular: true,
            complete_interrupt: true,
            half_interrupt: false,
            error_interrupt: true,
            enable: false,
        }
    }
}

/// A word put together from fields at their places gives every field back.
proof fn lemma_places_do_not_overlap(
    en: u32,
    teie: u32,
    htie: u32,
    tcie: u32,
    circ: u32,
    pinc: u32,
    minc: u32,
    psize: u32,
    msize: u32,
    pl: u32,
    dbm: u32,
    chsel: u32,
) by (bit_vector)
    requires
        en <= 1,
        teie <= 1,
        htie <= 1,
        tcie <= 1,
        circ <= 1,
        pinc <= 1,
        minc <= 1,
        psize <= 3,
        msize <= 3,
        pl <= 3,
        dbm <= 1,
        chsel <= 7,
    ensures
        ({
            let w = en | teie << 2 | htie << 3 | tcie << 4 | circ << 8 | pinc << 9 | minc << 10
                | psize << 11 | msize << 13 | pl << 16 | dbm << 18 | chsel << 25;
            &&& w < 0x1000_0000
            &&& holds(w, 0x1) == (en == 1)
            &&& holds(w, 0x4) == (teie == 1)
            &&& holds(w, 0x8) == (htie == 1)
            &&& holds(w, 0x10) == (tcie == 1)
            &&& holds(w, 0x100) == (circ == 1)
            &&& holds(w, 0x200) == (pinc == 1)
            &&& holds(w, 0x400) == (minc == 1)
            &&& (w / 0x800) % 4 == psize
            &&& (w / 0x2000) % 4 == msize
            &&& (w / 0x1_0000) % 4 == pl
            &&& holds(w, 0x4_0000) == (dbm == 1)
            &&& !holds(w, CURRENT_TARGET)
            &&& (w / 0x200_0000) % 8 == chsel
        }),
{
}

/// Every field of a control word can be read back at its place, and a
/// control word as it is written names the first buffer as the one to begin
/// with.
pub proof fn lemma_word_reads_back(control: StreamControl)
    ensures
        holds(control.word(), 0x1) == control.enable,
        holds(control.word(), 0x4) == control.error_interrupt,
        holds(control.word(), 0x8) == control.half_interrupt,
        holds(control.word(), 0x10) == control.complete_interrupt,
        holds(control.word(), 0x100) == control.circular,
        holds(control.word(), 0x200) == control.peripheral_increment,
        holds(control.word(), 0x400) == control.memory_increment,
        (control.word() / 0x800) % 4 == control.peripheral_width.code(),
        (control.word() / 0x2000) % 4 == control.memory_width.code(),
        (control.word() / 0x1_0000) % 4 == control.priority.code(),
        holds(control.word(), 0x4_0000) == control.double_buffer,
        (control.word() / 0x200_0000) % 8 == control.channel % 8,
        control.word() < 0x1000_0000,
        current_target(control.word()) == BufferId::A,
{
    let en = unit(control.enable);
    let teie = unit(control.error_interrupt);
    let htie = unit(control.half_interrupt);
    let tcie = unit(control.complete_interrupt);
    let circ = unit(control.circular);
    let pinc = unit(control.peripheral_increment);
    let minc = unit(control.memory_increment);
    let psize = control.peripheral_width.code();
    let msize = control.memory_width.code();
    let pl = control.priority.code();
    let dbm = unit(control.double_buffer);
    let chsel = (control.channel % 8) as u32;
    let w = en | teie << 2 | htie << 3 | tcie << 4 | circ << 8 | pinc << 9 | minc << 10 | psize
        << 11 | msize << 13 | pl << 16 | dbm << 18 | chsel << 25;
    assert(control.word() == w);
    lemma_places_do_not_overlap(en, teie, htie, tcie, circ, pinc, minc, psize, msize, pl, dbm, chsel);
}

/// The value of the field that selects a resolution.
pub open spec fn spec_resolution_code(resolution: Resolution) -> u32 {
    match resolution {
        Resolution::Bits12 => 0,
        Resolution::Bits10 => 1,
        Resolution::Bits8 => 2,
        Resolution::Bits6 => 3,
    }
}

/// The value of the field that selects a resolution.
#[verifier::when_used_as_spec(spec_resolution_code)]
pub fn resolution_code(resolution: Resolution) -> (r: u32)
    ensures
        r == spec_resolution_code(resolution),
{
    match resolution {
        Resolution::Bits12 => 0,
        Resolution::Bits10 => 1,
        Resolution::Bits8 => 2,
        Resolution::Bits6 => 3,
    }
}

/// The three words that hold a conversion sequence. Each entry has five
/// bits. `third` holds the entries 1 to 6 from bit 0 up, `second` the
/// entries 7 to 12, and `first` the entries 13 to 16 and, from bit 20 up, the
/// number of entries less one.
#[derive(Clone, Copy, Debug, PartialEq, Eq, Structural)]
pub struct SequenceWords {
    pub first: u32,
    pub second: u32,
    pub third: u32,
}

/// The entry at a position of the sequence, counted from zero, or zero past
/// its end.
pub open spec fn entry(channels: Seq<u8>, position: int) -> u32 {
    if 0 <= position < channels.len() {
        channels[position] as u32
    } else {
        0
    }
}

/// Six entries from `base` on, side by side, the first lowest.
pub open spec fn packed(channels: Seq<u8>, base: int) -> u32 {
    entry(channels, base) | entry(channels, base + 1) << 5 | entry(channels, base + 2) << 10
        | entry(channels, base + 3) << 15 | entry(channels, base + 4) << 20 | entry(
        channels,
        base + 5,
    ) << 25
}

/// The words for a sequence.
pub open spec fn spec_sequence_words(channels: Seq<u8>) -> SequenceWords {
    SequenceWords {
        first: packed(channels, 12) | ((channels.len() - 1) as u32) << 20,
        second: packed(channels, 6),
        third: packed(channels, 0),
    }
}

fn entry_at(channels: &Vec<u8>, position: usize) -> (r: u32)
    ensures
        r == entry(channels@, position as int),
{
    if position < channels.len() {
        channels[position] as u32
    } else {
        0
    }
}

fn pack(channels: &Vec<u8>, base: usize) -> (r: u32)
    requires
        base <= 12,
    ensures
        r == packed(channels@, base as int),
{
    entry_at(channels, base) | entry_at(channels, base + 1) << 5 | entry_at(channels, base + 2)
        << 10 | entry_at(channels, base + 3) << 15 | entry_at(channels, base + 4) << 20
        | entry_at(channels, base + 5) << 25
}

/// The words that set the conversion unit up with its sequence.
pub fn sequence_words(unit: &ConversionUnit) -> (words: SequenceWords)
    requires
        unit@.wf(),
    ensures
        words == spec_sequence_words(unit@.channels),
{
    let channels = unit.channels();
    let length: u32 = (channels.len() - 1) as u32;
    SequenceWords {
        first: pack(channels, 12) | length << 20,
        second: pack(channels, 6),
        third: pack(channels, 0),
    }
}

/// Six entries of five bits side by side give every entry back.
proof fn lemma_entries_do_not_overlap(e0: u32, e1: u32, e2: u32, e3: u32, e4: u32, e5: u32)
    by (bit_vector)
    requires
        e0 < 32,
        e1 < 32,
        e2 < 32,
        e3 < 32,
        e4 < 32,
        e5 < 32,
    ensures
        ({
            let w = e0 | e1 << 5 | e2 << 10 | e3 << 15 | e4 << 20 | e5 << 25;
            &&& w % 32 == e0
            &&& (w / 0x20) % 32 == e1
            &&& (w / 0x400) % 32 == e2
            &&& (w / 0x8000) % 32 == e3
            &&& (w / 0x10_0000) % 32 == e4
            &&& (w / 0x200_0000) % 32 == e5
        }),
{
}

/// Four entries of five bits side by side, and a count above them, give
/// every entry and the count back.
proof fn lemma_count_does_not_overlap(e0: u32, e1: u32, e2: u32, e3: u32, n: u32)
    by (bit_vector)
    requires
        e0 < 32,
        e1 < 32,
        e2 < 32,
        e3 < 32,
        n < 16,
    ensures
        ({
            let w = (e0 | e1 << 5 | e2 << 10 | e3 << 15 | 0u32 << 20 | 0u32 << 25) | n << 20;
            &&& w % 32 == e0
            &&& (w / 0x20) % 32 == e1
            &&& (w / 0x400) % 32 == e2
            &&& (w / 0x8000) % 32 == e3
            &&& (w / 0x10_0000) % 16 == n
        }),
{
}

/// The entry in a slot of a word, the slots counted from zero.
pub open spec fn slot(word: u32, index: int) -> u32 {
    if index == 0 {
        word % 32
    } else if index == 1 {
        (word / 0x20) % 32
    } else if index == 2 {
        (word / 0x400) % 32
    } else if index == 3 {
        (word / 0x8000) % 32
    } else if index == 4 {
        (word / 0x10_0000) % 32
    } else {
        (word / 0x200_0000) % 32
    }
}

/// The number of entries less one, as the first word holds it.
pub open spec fn count(words: SequenceWords) -> u32 {
    (words.first / 0x10_0000) % 16
}

/// The entry at a position of the sequence, counted from zero, as the words
/// hold it.
pub open spec fn held(words: SequenceWords, position: int) -> u32 {
    if position < 6 {
        slot(words.third, position)
    } else if position < 12 {
        slot(words.second, position - 6)
    } else {
        slot(words.first, position - 12)
    }
}

proof fn lemma_packed_reads_back(channels: Seq<u8>, base: int)
    requires
        sequence_valid(channels),
        0 <= base,
    ensures
        forall|index: int|
            0 <= index < 6 ==> #[trigger] slot(packed(channels, base), index) == entry(
                channels,
                base + index,
            ),
{
    lemma_entries_do_not_overlap(
        entry(channels, base),
        entry(channels, base + 1),
        entry(channels, base + 2),
        entry(channels, base + 3),
        entry(channels, base + 4),
        entry(channels, base + 5),
    );
}

proof fn lemma_first_reads_back(channels: Seq<u8>)
    requires
        sequence_valid(channels),
    ensures
        forall|index: int|
            0 <= index < 4 ==> #[trigger] slot(spec_sequence_words(channels).first, index)
                == entry(channels, 12 + index),
        count(spec_sequence_words(channels)) == channels.len() - 1,
{
    lemma_count_does_not_overlap(
        entry(channels, 12),
        entry(channels, 13),
        entry(channels, 14),
        entry(channels, 15),
        (channels.len() - 1) as u32,
    );
}

/// Every entry of a valid sequence can be read back at its place, and so can
/// the number of entries.
pub proof fn lemma_sequence_reads_back(channels: Seq<u8>, position: int)
    requires
        sequence_valid(channels),
        0 <= position < channels.len(),
    ensures
        held(spec_sequence_words(channels), position) == channels[position],
        count(spec_sequence_words(channels)) == channels.len() - 1,
{
    let words = spec_sequence_words(channels);
    lemma_first_reads_back(channels);
    if position < 6 {
        lemma_packed_reads_back(channels, 0);
        assert(slot(words.third, position) == entry(channels, 0 + position));
    } else if position < 12 {
        lemma_packed_reads_back(channels, 6);
        assert(slot(words.second, position - 6) == entry(channels, 6 + (position - 6)));
    } else {
        assert(slot(words.first, position - 12) == entry(channels, 12 + (position - 12)));
    }
}

} // verus!
