//! Bit-banged SPI: clock idle levels, the frames sent to payload peripherals,
//! and the bit-level rules by which a frame is shifted out on MOSI and a word
//! is shifted in from MISO.
//!
//! The pins themselves are driven by the caller: these functions decide the
//! level of each line, one bit at a time, and assemble what was sampled.
pub mod steps;

use vstd::prelude::*;
use crate::pcb_common::{PayloadSPIBitBangPins, PayloadSPIPins, OBCSPIPins};

verus! {

/// Clock level when the bus is idle.
#[derive(Clone, Copy, Debug, PartialEq, Eq, Structural)]
pub enum SckPolarity {
    IdleHigh,
    IdleLow,
}

/// Not quite standard SPI clock phase (first/second edge rather than
/// rising/falling).
#[derive(Clone, Copy, Debug, PartialEq, Eq, Structural)]
pub enum SckPhase {
    /// Read the bus on the first edge, write on the second.
    SampleFirstEdge,
    /// Read the bus on the second edge, write on the first.
    SampleSecondEdge,
}

/// A packet of up to 32 bits, sent most significant bit first.
#[derive(Clone, Copy, Debug, PartialEq, Eq, Structural)]
pub struct SpiFrame {
    /// Number of clock cycles (bits) in the packet.
    pub len: u8,
    /// The packet, right-aligned: bit `len - 1` goes out first.
    pub data: u32,
}

/// One transaction on a payload SPI bus.
#[derive(Clone, Copy, Debug, PartialEq, Eq, Structural)]
pub enum PayloadSpiOp {
    /// Send a packet, ignoring what comes back.
    Send(SpiFrame),
    /// Clock in `len` bits without sending anything.
    Receive(u8),
    /// Send a packet while receiving another of the same length.
    SendReceive(SpiFrame),
}

/// Level the clock line is driven to when a bus takes a polarity.
pub open spec fn spec_idle_clock_level(polarity: SckPolarity) -> bool {
    polarity == SckPolarity::IdleHigh
}

/// Level the clock line is driven to when a bus takes the given polarity.
pub fn idle_clock_level(polarity: SckPolarity) -> (high: bool)
    ensures
        high == spec_idle_clock_level(polarity),
{
    match polarity {
        SckPolarity::IdleHigh => true,
        SckPolarity::IdleLow => false,
    }
}

/// Bit `k` of `data`.
pub open spec fn bit_of(data: u32, k: u32) -> bool {
    (data >> k) & 1 == 1
}

/// MOSI level for clock cycle `pos` of a payload frame: bit `len - pos - 1`
/// of the data, most significant bit first.
pub open spec fn spec_payload_mosi_level(len: u8, data: u32, pos: u8) -> bool {
    bit_of(data, (len - pos - 1) as u32)
}

/// MOSI level for clock cycle `pos` of an on-board-computer frame: bit
/// `len - pos - 1` of the data, most significant bit first, as on the payload
/// bus.
pub open spec fn spec_obc_mosi_level(len: u8, data: u32, pos: u8) -> bool {
    bit_of(data, (len - pos - 1) as u32)
}

/// MOSI level for cycle `pos` of a payload frame:
/// `data & (1 << (len - pos - 1)) > 0`.
pub fn payload_mosi_level(len: u8, data: u32, pos: u8) -> (high: bool)
    requires
        pos < len <= 32,
    ensures
        high == spec_payload_mosi_level(len, data, pos),
{
    let k: u32 = (len - pos - 1) as u32;
    let high = (data & (1u32 << k)) > 0;
    assert(high == bit_of(data, k)) by (bit_vector)
        requires
            k < 32,
            high == ((data & (1u32 << k)) > 0),
    ;
    high
}

/// MOSI level for cycle `pos` of an on-board-computer frame:
/// `data & (1 << (len - pos - 1)) != 0`.
pub fn obc_mosi_level(len: u8, data: u32, pos: u8) -> (high: bool)
    requires
        pos < len <= 32,
    ensures
        high == spec_obc_mosi_level(len, data, pos),
{
    payload_mosi_level(len, data, pos)
}

/// The word accumulated after shifting in `samples`, first sample first:
/// each step shifts the word left by one and puts the new sample in bit 0.
pub open spec fn spec_assemble(samples: Seq<bool>) -> u32
    decreases samples.len(),
{
    if samples.len() == 0 {
        0
    } else {
        shift_in_spec(spec_assemble(samples.drop_last()), samples.last())
    }
}

/// `(acc << 1) | sample`.
pub open spec fn shift_in_spec(acc: u32, sample: bool) -> u32 {
    (acc << 1u32) | (if sample { 1u32 } else { 0u32 })
}

/// Shifts one sampled MISO level into the received word.
pub fn shift_in(acc: u32, miso_high: bool) -> (r: u32)
    ensures
        r == shift_in_spec(acc, miso_high),
{
    (acc << 1u32) | (if miso_high { 1u32 } else { 0u32 })
}

/// The word received from a sequence of MISO samples, first sample first.
pub fn assemble_word(samples: &Vec<bool>) -> (word: u32)
    ensures
        word == spec_assemble(samples@),
{
    let mut word: u32 = 0;
    let mut i: usize = 0;
    while i < samples.len()
        invariant
            i <= samples.len(),
            word == spec_assemble(samples@.subrange(0, i as int)),
        decreases samples.len() - i,
    {
        assert(samples@.subrange(0, i + 1).drop_last() =~= samples@.subrange(0, i as int));
        word = shift_in(word, samples[i]);
        i += 1;
    }
    assert(samples@.subrange(0, samples.len() as int) =~= samples@);
    word
}

/// The low `len` bits of `data` (all of it when `len` is 32).
pub open spec fn low_bits(data: u32, len: u32) -> u32 {
    if len >= 32 {
        data
    } else {
        data & ((1u32 << len) - 1u32) as u32
    }
}

proof fn lemma_low_bits_facts(data: u32, len: u32, j: u32)
    requires
        1 <= len <= 32,
        j < len,
    ensures
        bit_of(low_bits(data, len), j) == bit_of(data, j),
        low_bits(data, len) >> ((len - 1) as u32) == (if bit_of(data, (len - 1) as u32) { 1u32 } else { 0u32 }),
{
    let x = low_bits(data, len);
    let l1 = (len - 1) as u32;
    if len >= 32 {
        assert(x == data);
        assert(data >> l1 == (if (data >> l1) & 1 == 1 { 1u32 } else { 0u32 })) by (bit_vector)
            requires
                l1 == 31,
        ;
    } else {
        assert(x == data & ((1u32 << len) - 1u32) as u32);
        assert(((data & ((1u32 << len) - 1u32) as u32) >> j) & 1 == (data >> j) & 1) by (bit_vector)
            requires
                j < len,
                len < 32,
        ;
        assert((data & ((1u32 << len) - 1u32) as u32) >> l1 == (if (data >> l1) & 1 == 1 { 1u32 } else { 0u32 }))
            by (bit_vector)
            requires
                1 <= len < 32,
                l1 == len - 1,
        ;
    }
}

proof fn lemma_shift_in_step(x: u32, s: u32)
    requires
        1 <= s <= 31,
    ensures
        shift_in_spec(x >> s, bit_of(x, (s - 1) as u32)) == x >> ((s - 1) as u32),
{
    let s1 = (s - 1) as u32;
    assert(((x >> s) << 1u32) | (if (x >> s1) & 1 == 1 { 1u32 } else { 0u32 }) == x >> s1) by (bit_vector)
        requires
            1 <= s <= 31,
            s1 == s - 1,
    ;
}

proof fn lemma_loopback_prefix(frame: SpiFrame, levels: Seq<bool>, k: int)
    requires
        1 <= frame.len <= 32,
        1 <= k <= frame.len,
        levels.len() == frame.len,
        forall|i: int|
            0 <= i < frame.len ==> levels[i] == #[trigger] spec_payload_mosi_level(
                frame.len,
                frame.data,
                i as u8,
            ),
    ensures
        spec_assemble(levels.take(k)) == low_bits(frame.data, frame.len as u32) >> ((frame.len - k) as u32),
    decreases k,
{
    let len = frame.len as u32;
    let x = low_bits(frame.data, len);
    assert(levels.take(k).drop_last() =~= levels.take(k - 1));
    assert(levels[k - 1] == spec_payload_mosi_level(frame.len, frame.data, (k - 1) as u8));
    if k == 1 {
        lemma_low_bits_facts(frame.data, len, (len - 1) as u32);
        assert(levels.take(0) =~= Seq::<bool>::empty());
        assert(spec_assemble(levels.take(0)) == 0u32);
        assert(shift_in_spec(0u32, bit_of(frame.data, (len - 1) as u32)) == (if bit_of(
            frame.data,
            (len - 1) as u32,
        ) { 1u32 } else { 0u32 })) by (bit_vector);
        assert(levels.take(1).last() == levels[0]);
        assert(spec_assemble(levels.take(1)) == shift_in_spec(0u32, levels[0]));
    } else {
        lemma_loopback_prefix(frame, levels, k - 1);
        let s = (len - k + 1) as u32;
        lemma_low_bits_facts(frame.data, len, (s - 1) as u32);
        lemma_shift_in_step(x, s);
        assert(spec_assemble(levels.take(k - 1)) == x >> s);
        assert(levels.take(k).last() == levels[k - 1]);
        assert(levels[k - 1] == bit_of(frame.data, (s - 1) as u32));
        assert(spec_assemble(levels.take(k)) == shift_in_spec(x >> s, bit_of(x, (s - 1) as u32)));
    }
}

/// Law: a payload frame shifted out on MOSI and looped straight back into
/// MISO is received as the low `len` bits of its data, so a loopback transfer
/// returns what was sent.
pub proof fn payload_frame_loopback(frame: SpiFrame, levels: Seq<bool>)
    requires
        1 <= frame.len <= 32,
        levels.len() == frame.len,
        forall|i: int|
            0 <= i < frame.len ==> levels[i] == #[trigger] spec_payload_mosi_level(
                frame.len,
                frame.data,
                i as u8,
            ),
    ensures
        spec_assemble(levels) == low_bits(frame.data, frame.len as u32),
{
    lemma_loopback_prefix(frame, levels, frame.len as int);
    assert(levels.take(frame.len as int) =~= levels);
    let x = low_bits(frame.data, frame.len as u32);
    assert(x >> 0u32 == x) by (bit_vector);
}

/// Payload SPI bus driven by bit banging. The clock polarity and the phase the
/// attached peripheral expects are part of the bus state; the caller drives
/// SCK to `idle_clock_level(polarity)` whenever a bus is made or converted.
pub struct PayloadSPIBitBang<Miso, Mosi, Sck> {
    pub miso: Miso,
    pub mosi: Mosi,
    pub sck: Sck,
    pub polarity: SckPolarity,
    pub phase: SckPhase,
}

impl<Miso, Mosi, Sck> PayloadSPIBitBang<Miso, Mosi, Sck> {
    /// Creates a bus from the bit-bang pins. Returns the bus and the level SCK
    /// must be driven to.
    pub fn new(pins: PayloadSPIBitBangPins<Miso, Mosi, Sck>, polarity: SckPolarity, phase: SckPhase) -> (r: (
        Self,
        bool,
    ))
        ensures
            r.0.miso == pins.miso,
            r.0.mosi == pins.mosi,
            r.0.sck == pins.sck,
            r.0.polarity == polarity,
            r.0.phase == phase,
            r.1 == spec_idle_clock_level(polarity),
    {
        let level = idle_clock_level(polarity);
        (PayloadSPIBitBang { miso: pins.miso, mosi: pins.mosi, sck: pins.sck, polarity, phase }, level)
    }

    /// Consumes the bus and returns its pins, for the caller to put back in
    /// peripheral (eUSCI) mode.
    pub fn return_pins(self) -> (pins: PayloadSPIPins<Miso, Mosi, Sck>)
        ensures
            pins.miso == self.miso,
            pins.mosi == self.mosi,
            pins.sck == self.sck,
    {
        PayloadSPIPins { miso: self.miso, mosi: self.mosi, sck: self.sck }
    }

    /// Consumes the bus and returns its bit-bang pins.
    pub fn return_bit_bang_pins(self) -> (pins: PayloadSPIBitBangPins<Miso, Mosi, Sck>)
        ensures
            pins.miso == self.miso,
            pins.mosi == self.mosi,
            pins.sck == self.sck,
    {
        PayloadSPIBitBangPins { miso: self.miso, mosi: self.mosi, sck: self.sck }
    }

    /// Converts the bus to another polarity and phase. Returns the new bus and
    /// the level SCK must be driven to.
    pub fn into(self, polarity: SckPolarity, phase: SckPhase) -> (r: (Self, bool))
        ensures
            r.0.miso == self.miso,
            r.0.mosi == self.mosi,
            r.0.sck == self.sck,
            r.0.polarity == polarity,
            r.0.phase == phase,
            r.1 == spec_idle_clock_level(polarity),
    {
        let level = idle_clock_level(polarity);
        (PayloadSPIBitBang { miso: self.miso, mosi: self.mosi, sck: self.sck, polarity, phase }, level)
    }
}

/// Holds the payload bus between uses and hands it out in whatever mode the
/// next peripheral needs, so that code passing the bus along need not know
/// that mode. The bus rests idling high, sampled on the first edge.
pub struct PayloadSPIController<Miso, Mosi, Sck> {
    spi_bus: PayloadSPIBitBang<Miso, Mosi, Sck>,
}

impl<Miso, Mosi, Sck> PayloadSPIController<Miso, Mosi, Sck> {
    /// The bus held.
    pub closed spec fn spec_bus(&self) -> PayloadSPIBitBang<Miso, Mosi, Sck> {
        self.spi_bus
    }

    /// Takes over a bus, converting it to the resting mode. Returns the
    /// controller and the level SCK must be driven to.
    pub fn new_from_bus(bus: PayloadSPIBitBang<Miso, Mosi, Sck>) -> (r: (Self, bool))
        ensures
            r.0.spec_bus() == (PayloadSPIBitBang {
                polarity: SckPolarity::IdleHigh,
                phase: SckPhase::SampleFirstEdge,
                ..bus
            }),
            r.1 == spec_idle_clock_level(SckPolarity::IdleHigh),
    {
        let (spi_bus, level) = bus.into(SckPolarity::IdleHigh, SckPhase::SampleFirstEdge);
        (PayloadSPIController { spi_bus }, level)
    }

    /// Makes a bus in the resting mode from its pins. Returns the controller
    /// and the level SCK must be driven to.
    pub fn new(pins: PayloadSPIBitBangPins<Miso, Mosi, Sck>) -> (r: (Self, bool))
        ensures
            r.0.spec_bus() == (PayloadSPIBitBang {
                miso: pins.miso,
                mosi: pins.mosi,
                sck: pins.sck,
                polarity: SckPolarity::IdleHigh,
                phase: SckPhase::SampleFirstEdge,
            }),
            r.1 == spec_idle_clock_level(SckPolarity::IdleHigh),
    {
        let (spi_bus, level) = PayloadSPIBitBang::new(pins, SckPolarity::IdleHigh, SckPhase::SampleFirstEdge);
        (PayloadSPIController { spi_bus }, level)
    }

    /// Gives the bus back in the given mode, with the level SCK must be
    /// driven to.
    pub fn return_bus(self, polarity: SckPolarity, phase: SckPhase) -> (r: (PayloadSPIBitBang<Miso, Mosi, Sck>, bool))
        ensures
            r.0 == (PayloadSPIBitBang { polarity, phase, ..self.spec_bus() }),
            r.1 == spec_idle_clock_level(polarity),
    {
        self.spi_bus.into(polarity, phase)
    }

    /// Gives back the bit-bang pins.
    pub fn return_pins(self) -> (pins: PayloadSPIBitBangPins<Miso, Mosi, Sck>)
        ensures
            pins.miso == self.spec_bus().miso,
            pins.mosi == self.spec_bus().mosi,
            pins.sck == self.spec_bus().sck,
    {
        self.spi_bus.return_bit_bang_pins()
    }

    /// Lends the bus, converted to the given mode; the caller drives SCK to
    /// `idle_clock_level(polarity)` before the first transaction.
    pub fn borrow(&mut self, polarity: SckPolarity, phase: SckPhase) -> (bus: &mut PayloadSPIBitBang<Miso, Mosi, Sck>)
        ensures
            *bus == (PayloadSPIBitBang { polarity, phase, ..old(self).spec_bus() }),
            final(self).spec_bus() == *final(bus),
    {
        self.spi_bus.polarity = polarity;
        self.spi_bus.phase = phase;
        &mut self.spi_bus
    }
}

/// On-board-computer SPI bus driven by bit banging. The chip select and its
/// interrupt line are held but not driven.
pub struct OBCSPIBitBang<Miso, Mosi, Sck, Cs, CsInterrupt> {
    pub miso: Miso,
    pub mosi: Mosi,
    pub sck: Sck,
    chip_select: Cs,
    chip_select_interrupt: CsInterrupt,
}

impl<Miso, Mosi, Sck, Cs, CsInterrupt> OBCSPIBitBang<Miso, Mosi, Sck, Cs, CsInterrupt> {
    /// The MISO pin held by the bus.
    pub closed spec fn spec_miso(&self) -> Miso {
        self.miso
    }

    /// The MOSI pin held by the bus.
    pub closed spec fn spec_mosi(&self) -> Mosi {
        self.mosi
    }

    /// The SCK pin held by the bus.
    pub closed spec fn spec_sck(&self) -> Sck {
        self.sck
    }

    /// The chip-select pin held by the bus.
    pub closed spec fn spec_chip_select(&self) -> Cs {
        self.chip_select
    }

    /// The chip-select interrupt pin held by the bus.
    pub closed spec fn spec_chip_select_interrupt(&self) -> CsInterrupt {
        self.chip_select_interrupt
    }

    /// Creates a bus from the OBC SPI pins (the caller has made MISO a
    /// pulled-down input and MOSI and SCK plain outputs).
    pub fn new(pins: OBCSPIPins<Miso, Mosi, Sck, Cs, CsInterrupt>) -> (bus: Self)
        ensures
            bus.spec_miso() == pins.miso,
            bus.spec_mosi() == pins.mosi,
            bus.spec_sck() == pins.sck,
            bus.spec_chip_select() == pins.chip_select,
            bus.spec_chip_select_interrupt() == pins.chip_select_interrupt,
    {
        OBCSPIBitBang {
            miso: pins.miso,
            mosi: pins.mosi,
            sck: pins.sck,
            chip_select: pins.chip_select,
            chip_select_interrupt: pins.chip_select_interrupt,
        }
    }

    /// Consumes the bus and returns its pins (the caller puts them back in
    /// peripheral mode).
    pub fn return_pins(self) -> (pins: OBCSPIPins<Miso, Mosi, Sck, Cs, CsInterrupt>)
        ensures
            pins.miso == self.spec_miso(),
            pins.mosi == self.spec_mosi(),
            pins.sck == self.spec_sck(),
            pins.chip_select == self.spec_chip_select(),
            pins.chip_select_interrupt == self.spec_chip_select_interrupt(),
    {
        OBCSPIPins {
            miso: self.miso,
            mosi: self.mosi,
            sck: self.sck,
            chip_select: self.chip_select,
            chip_select_interrupt: self.chip_select_interrupt,
        }
    }

    /// Level SCK is driven to to idle it low.
    pub fn set_sck_idle_low(&self) -> (high: bool)
        ensures
            !high,
    {
        false
    }

    /// Level SCK is driven to to idle it high.
    pub fn set_sck_idle_high(&self) -> (high: bool)
        ensures
            high,
    {
        true
    }
}

/// A peripheral on the payload SPI bus.
#[derive(Clone, Copy, Debug, PartialEq, Eq, Structural)]
pub enum PayloadPeripheral {
    Adc,
    Dac,
    Digipot,
}

/// The clock polarity and phase a peripheral needs on the bus: the ADCs idle
/// the clock high, the DAC and digital potentiometer idle it low; all sample
/// on the first edge.
pub fn required_bus_mode(peripheral: PayloadPeripheral) -> (mode: (SckPolarity, SckPhase))
    ensures
        mode.0 == (if peripheral == PayloadPeripheral::Adc { SckPolarity::IdleHigh } else { SckPolarity::IdleLow }),
        mode.1 == SckPhase::SampleFirstEdge,
{
    match peripheral {
        PayloadPeripheral::Adc => (SckPolarity::IdleHigh, SckPhase::SampleFirstEdge),
        PayloadPeripheral::Dac => (SckPolarity::IdleLow, SckPhase::SampleFirstEdge),
        PayloadPeripheral::Digipot => (SckPolarity::IdleLow, SckPhase::SampleFirstEdge),
    }
}

} // verus!
