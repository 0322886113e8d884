//! The payload SPI bus on the eUSCI hardware peripheral. A transaction moves
//! the leading whole bytes of the frame, most significant first, and the word
//! read back is assembled from the bytes received in their place. The caller
//! performs the transfer itself (select, exchange the bytes, wait for the bus
//! to go idle, deselect) and the register writes that change the bus mode.
use vstd::prelude::*;
use vstd::arithmetic::power2::pow2;
use crate::hal::eusci::{SpiRegisterWrite, UcsselSpi};
use crate::hal::eusci_utils::{BitCount, BitOrder};
use crate::hal::spi::{spec_reconfigure_writes, Phase, Polarity, SpiBus, SpiUsci};
use crate::pcb_common::PayloadSPIPins;

verus! {

/// The four bytes of `data`, most significant first.
pub open spec fn spec_be_bytes(data: u32) -> Seq<u8> {
    seq![
        (data / 0x100_0000) as u8,
        (data / 0x1_0000 % 0x100) as u8,
        (data / 0x100 % 0x100) as u8,
        (data % 0x100) as u8,
    ]
}

/// Whether a transaction of `len` bits is carried out at all.
pub open spec fn spec_len_valid(len: u8) -> bool {
    1 <= len <= 32
}

/// The bytes a transaction of `len` bits moves: the last `len / 8` bytes of
/// the data (its low whole bytes), most significant first.
pub open spec fn spec_transfer_bytes(len: u8, data: u32) -> Seq<u8> {
    spec_be_bytes(data).skip(4 - len as int / 8)
}

/// The received bytes in order, filled with zeros to four.
pub open spec fn spec_padded(received: Seq<u8>) -> Seq<u8> {
    received + Seq::new((4 - received.len()) as nat, |i: int| 0u8)
}

/// The word a transaction of `len` bits reads back from the bytes it
/// received: as many leading bytes as `len` spans, most significant first;
/// zero when no transaction takes place.
pub open spec fn spec_read_word(len: u8, received: Seq<u8>) -> int {
    let a = spec_padded(received);
    if 1 <= len <= 8 {
        a[0] as int
    } else if 9 <= len <= 16 {
        a[0] * 0x100 + a[1]
    } else if 17 <= len <= 24 {
        a[0] * 0x1_0000 + a[1] * 0x100 + a[2]
    } else if 25 <= len <= 32 {
        a[0] * 0x100_0000 + a[1] * 0x1_0000 + a[2] * 0x100 + a[3]
    } else {
        0
    }
}

/// The bytes a transaction of `len` bits sends, or `None` when `len` is not
/// between 1 and 32 and no transaction takes place (the word read back is
/// then zero).
pub fn transfer_bytes(len: u8, data: u32) -> (bytes: Option<Vec<u8>>)
    ensures
        bytes is None <==> !spec_len_valid(len),
        bytes matches Some(v) ==> v@ == spec_transfer_bytes(len, data),
{
    if len < 1 || len > 32 {
        return None;
    }
    let count: u8 = len / 8;
    let b0: u8 = (data >> 24u32) as u8;
    let b1: u8 = ((data >> 16u32) & 0xff) as u8;
    let b2: u8 = ((data >> 8u32) & 0xff) as u8;
    let b3: u8 = (data & 0xff) as u8;
    assert(b0 == (data / 0x100_0000) as u8 && b1 == (data / 0x1_0000 % 0x100) as u8 && b2 == (data / 0x100
        % 0x100) as u8 && b3 == (data % 0x100) as u8) by (bit_vector)
        requires
            b0 == (data >> 24u32) as u8,
            b1 == ((data >> 16u32) & 0xff) as u8,
            b2 == ((data >> 8u32) & 0xff) as u8,
            b3 == (data & 0xff) as u8,
    ;
    let ghost all = spec_be_bytes(data);
    let mut v: Vec<u8> = Vec::new();
    if count >= 4 {
        v.push(b0);
    }
    if count >= 3 {
        v.push(b1);
    }
    if count >= 2 {
        v.push(b2);
    }
    if count >= 1 {
        v.push(b3);
    }
    assert(v@ =~= all.skip(4 - count as int));
    Some(v)
}

/// The word read back from a transaction of `len` bits that received
/// `received` (at most the four bytes a transaction moves).
pub fn read_word(len: u8, received: &Vec<u8>) -> (word: u32)
    requires
        received.len() <= 4,
    ensures
        word as int == spec_read_word(len, received@),
{
    if len < 1 || len > 32 {
        return 0;
    }
    let n = received.len();
    let a0: u8 = if n > 0 { received[0] } else { 0 };
    let a1: u8 = if n > 1 { received[1] } else { 0 };
    let a2: u8 = if n > 2 { received[2] } else { 0 };
    let a3: u8 = if n > 3 { received[3] } else { 0 };
    let ghost a = spec_padded(received@);
    assert(a.len() == 4);
    assert(a[0] == a0 && a[1] == a1 && a[2] == a2 && a[3] == a3);
    let (x0, x1, x2, x3) = (a0 as u32, a1 as u32, a2 as u32, a3 as u32);
    if len <= 8 {
        x0
    } else if len <= 16 {
        let w = (x0 << 8u32) | x1;
        assert(w == x0 * 0x100 + x1) by (bit_vector)
            requires
                x0 < 0x100,
                x1 < 0x100,
                w == (x0 << 8u32) | x1,
        ;
        w
    } else if len <= 24 {
        let w = (x0 << 16u32) | (x1 << 8u32) | x2;
        assert(w == x0 * 0x1_0000 + x1 * 0x100 + x2) by (bit_vector)
            requires
                x0 < 0x100,
                x1 < 0x100,
                x2 < 0x100,
                w == (x0 << 16u32) | (x1 << 8u32) | x2,
        ;
        w
    } else {
        let w = (x0 << 24u32) | (x1 << 16u32) | (x2 << 8u32) | x3;
        assert(w == x0 * 0x100_0000 + x1 * 0x1_0000 + x2 * 0x100 + x3) by (bit_vector)
            requires
                x0 < 0x100,
                x1 < 0x100,
                x2 < 0x100,
                x3 < 0x100,
                w == (x0 << 24u32) | (x1 << 16u32) | (x2 << 8u32) | x3,
        ;
        w
    }
}

/// Law: a transaction of whole bytes whose MISO is wired to MOSI reads back
/// the bytes it sent, so the word is the low `len` bits of the data.
pub proof fn peripheral_transaction_loopback(len: u8, data: u32)
    requires
        len == 8 || len == 16 || len == 24 || len == 32,
    ensures
        spec_read_word(len, spec_transfer_bytes(len, data)) == data as int % pow2(len as nat) as int,
{
    let b = spec_be_bytes(data);
    let s = spec_transfer_bytes(len, data);
    let a = spec_padded(s);
    let d = data as int;
    assert(0 <= d < 0x1_0000_0000);
    assert(b[0] as int == d / 0x100_0000);
    assert(b[1] as int == d / 0x1_0000 % 0x100);
    assert(b[2] as int == d / 0x100 % 0x100);
    assert(b[3] as int == d % 0x100);
    vstd::arithmetic::div_mod::lemma_mod_breakdown(d, 0x100, 0x100);
    vstd::arithmetic::div_mod::lemma_mod_breakdown(d, 0x1_0000, 0x100);
    vstd::arithmetic::div_mod::lemma_mod_breakdown(d, 0x100_0000, 0x100);
    assert(0x100 * 0x100 == 0x1_0000 && 0x1_0000 * 0x100 == 0x100_0000 && 0x100_0000 * 0x100 == 0x1_0000_0000);
    assert(d / 0x100_0000 < 0x100);
    assert(d % 0x1_0000_0000 == d) by {
        vstd::arithmetic::div_mod::lemma_small_mod(d as nat, 0x1_0000_0000);
    }
    vstd::arithmetic::power2::lemma2_to64();
    assert(s.len() == len / 8);
    assert(a.len() == 4);
    if len == 8 {
        assert(a[0] == b[3]);
        assert(spec_read_word(len, s) == d % 0x100);
        assert(pow2(8nat) == 0x100);
    } else if len == 16 {
        assert(a[0] == b[2] && a[1] == b[3]);
        assert(spec_read_word(len, s) == d % 0x1_0000);
        assert(pow2(16nat) == 0x1_0000);
    } else if len == 24 {
        assert(a[0] == b[1] && a[1] == b[2] && a[2] == b[3]);
        assert(spec_read_word(len, s) == d % 0x100_0000);
        assert(pow2(24nat) == 0x100_0000);
    } else {
        assert(a[0] == b[0] && a[1] == b[1] && a[2] == b[2] && a[3] == b[3]);
        assert(spec_read_word(len, s) == d);
        assert(pow2(32nat) == 0x1_0000_0000);
    }
}

/// The payload bus on the hardware peripheral, with the clock polarity and
/// phase it is configured for.
pub struct PayloadSPIPeripheral<USCI: SpiUsci> {
    pub bus: SpiBus<USCI>,
    pub polarity: Polarity,
    pub phase: Phase,
}

impl<USCI: SpiUsci> PayloadSPIPeripheral<USCI> {
    /// Takes a bus already configured for `polarity` and `phase`.
    pub fn new(bus: SpiBus<USCI>, polarity: Polarity, phase: Phase) -> (r: Self)
        ensures
            r == (PayloadSPIPeripheral { bus, polarity, phase }),
    {
        PayloadSPIPeripheral { bus, polarity, phase }
    }

    /// Consumes the bus and returns its pins.
    pub fn return_pins(self) -> (pins: PayloadSPIPins<USCI::MisoPin, USCI::MosiPin, USCI::SckPin>)
        ensures
            pins.miso == self.bus.spec_miso(),
            pins.mosi == self.bus.spec_mosi(),
            pins.sck == self.bus.spec_sck(),
    {
        let (sck, mosi, miso) = self.bus.return_pins();
        PayloadSPIPins { miso, mosi, sck }
    }

    /// Converts the bus to another polarity and phase, most significant bit
    /// first in 8-bit characters clocked from `clock`. Returns the bus and
    /// the register writes that reconfigure the peripheral.
    pub fn into(self, polarity: Polarity, phase: Phase, clock: UcsselSpi) -> (r: (Self, Vec<SpiRegisterWrite>))
        ensures
            r.0 == (PayloadSPIPeripheral { bus: self.bus, polarity, phase }),
            r.1@ == spec_reconfigure_writes(polarity, phase, BitOrder::MsbFirst, BitCount::EightBits, clock),
    {
        let mut bus = self.bus;
        let writes = bus.reconfigure(polarity, phase, BitOrder::MsbFirst, BitCount::EightBits, clock);
        (PayloadSPIPeripheral { bus, polarity, phase }, writes)
    }

    /// The transaction that sends `len` bits of `data` while receiving as
    /// many: select the chip, exchange the bytes, wait for the bus to go idle,
    /// deselect (no step when `len` is not between 1 and 32). The word
    /// received is the transaction's `word` of the bytes read back at its
    /// exchanges.
    pub fn send_receive(&self, len: u8, data: u32) -> (t: PeripheralTransfer)
        ensures
            t.len == len,
            t.steps@ == spec_peripheral_steps(len, data),
    {
        let mut steps: Vec<PeripheralStep> = Vec::new();
        match transfer_bytes(len, data) {
            None => {
                assert(steps@ =~= spec_peripheral_steps(len, data));
            },
            Some(bytes) => {
                let ghost sent = spec_transfer_bytes(len, data);
                steps.push(PeripheralStep::Select);
                let mut i: usize = 0;
                while i < bytes.len()
                    invariant
                        bytes@ == sent,
                        i <= bytes.len(),
                        steps@ == seq![PeripheralStep::Select] + sent.take(i as int).map_values(
                            |b: u8| PeripheralStep::Exchange(b),
                        ),
                    decreases bytes.len() - i,
                {
                    steps.push(PeripheralStep::Exchange(bytes[i]));
                    i += 1;
                    assert(steps@ =~= seq![PeripheralStep::Select] + sent.take(i as int).map_values(
                        |b: u8| PeripheralStep::Exchange(b),
                    ));
                }
                steps.push(PeripheralStep::WaitIdle);
                steps.push(PeripheralStep::Deselect);
                assert(sent.take(i as int) =~= sent);
                assert(steps@ =~= spec_peripheral_steps(len, data));
            },
        }
        PeripheralTransfer { len, steps }
    }

    /// The transaction that sends `len` bits of `data`, the reply being
    /// ignored.
    pub fn send(&self, len: u8, data: u32) -> (t: PeripheralTransfer)
        ensures
            t.len == len,
            t.steps@ == spec_peripheral_steps(len, data),
    {
        self.send_receive(len, data)
    }

    /// The transaction that receives `len` bits, sending zeros.
    pub fn receive(&self, len: u8) -> (t: PeripheralTransfer)
        ensures
            t.len == len,
            t.steps@ == spec_peripheral_steps(len, 0),
    {
        self.send_receive(len, 0)
    }
}

/// One step of a transaction on the hardware bus.
#[derive(Clone, Copy, Debug, PartialEq, Eq, Structural)]
pub enum PeripheralStep {
    /// Drive the chip select low.
    Select,
    /// Send a byte and read the byte received in its place.
    Exchange(u8),
    /// Wait until the bus is no longer busy.
    WaitIdle,
    /// Drive the chip select high.
    Deselect,
}

/// The steps of a transaction of `len` bits of `data`: none when `len` is
/// not between 1 and 32; otherwise select, exchange each byte of
/// `spec_transfer_bytes`, wait for the bus to go idle, deselect.
pub open spec fn spec_peripheral_steps(len: u8, data: u32) -> Seq<PeripheralStep> {
    if spec_len_valid(len) {
        seq![PeripheralStep::Select] + spec_transfer_bytes(len, data).map_values(|b: u8| PeripheralStep::Exchange(b))
            + seq![PeripheralStep::WaitIdle, PeripheralStep::Deselect]
    } else {
        Seq::empty()
    }
}

/// A planned transaction: its steps, and its length, which decides how the
/// bytes received at its exchanges make up the word read back.
pub struct PeripheralTransfer {
    pub len: u8,
    pub steps: Vec<PeripheralStep>,
}

impl PeripheralTransfer {
    /// The word read back, from the bytes received at the exchange steps in
    /// order (zero when the transaction has no step).
    pub fn word(&self, received: &Vec<u8>) -> (w: u32)
        requires
            received.len() <= 4,
        ensures
            w as int == spec_read_word(self.len, received@),
    {
        read_word(self.len, received)
    }
}

/// Holds the hardware payload bus between uses and lends it out in whatever
/// mode the next peripheral needs. It rests idling high, capturing on the
/// first edge.
pub struct PayloadSPIController<USCI: SpiUsci> {
    pub spi_bus: PayloadSPIPeripheral<USCI>,
}

impl<USCI: SpiUsci> PayloadSPIController<USCI> {
    /// Takes over a bus, converting it to the resting mode. Returns the
    /// controller and the register writes that reconfigure the peripheral.
    pub fn new_from_bus(bus: PayloadSPIPeripheral<USCI>, clock: UcsselSpi) -> (r: (Self, Vec<SpiRegisterWrite>))
        ensures
            r.0.spi_bus == (PayloadSPIPeripheral {
                bus: bus.bus,
                polarity: Polarity::IdleHigh,
                phase: Phase::CaptureOnFirstEdge,
            }),
            r.1@ == spec_reconfigure_writes(
                Polarity::IdleHigh,
                Phase::CaptureOnFirstEdge,
                BitOrder::MsbFirst,
                BitCount::EightBits,
                clock,
            ),
    {
        let (spi_bus, writes) = bus.into(Polarity::IdleHigh, Phase::CaptureOnFirstEdge, clock);
        (PayloadSPIController { spi_bus }, writes)
    }

    /// Takes a bus already configured in the resting mode.
    pub fn new(bus: SpiBus<USCI>) -> (r: Self)
        ensures
            r.spi_bus == (PayloadSPIPeripheral { bus, polarity: Polarity::IdleHigh, phase: Phase::CaptureOnFirstEdge }),
    {
        PayloadSPIController { spi_bus: PayloadSPIPeripheral::new(bus, Polarity::IdleHigh, Phase::CaptureOnFirstEdge) }
    }

    /// Gives the bus back in the given mode, with the register writes that
    /// reconfigure the peripheral.
    pub fn return_bus(self, polarity: Polarity, phase: Phase, clock: UcsselSpi) -> (r: (
        PayloadSPIPeripheral<USCI>,
        Vec<SpiRegisterWrite>,
    ))
        ensures
            r.0 == (PayloadSPIPeripheral { bus: self.spi_bus.bus, polarity, phase }),
            r.1@ == spec_reconfigure_writes(polarity, phase, BitOrder::MsbFirst, BitCount::EightBits, clock),
    {
        self.spi_bus.into(polarity, phase, clock)
    }

    /// Consumes the controller and returns the bus pins.
    pub fn return_pins(self) -> (pins: PayloadSPIPins<USCI::MisoPin, USCI::MosiPin, USCI::SckPin>)
        ensures
            pins.miso == self.spi_bus.bus.spec_miso(),
            pins.mosi == self.spi_bus.bus.spec_mosi(),
            pins.sck == self.spi_bus.bus.spec_sck(),
    {
        self.spi_bus.return_pins()
    }

    /// Lends the bus in the given mode: returns the register writes that
    /// reconfigure the peripheral, after which `spi_bus` is in that mode.
    pub fn borrow(&mut self, polarity: Polarity, phase: Phase, clock: UcsselSpi) -> (writes: Vec<SpiRegisterWrite>)
        ensures
            final(self).spi_bus == (PayloadSPIPeripheral { bus: old(self).spi_bus.bus, polarity, phase }),
            writes@ == spec_reconfigure_writes(polarity, phase, BitOrder::MsbFirst, BitCount::EightBits, clock),
    {
        let writes = self.spi_bus.bus.reconfigure(polarity, phase, BitOrder::MsbFirst, BitCount::EightBits, clock);
        self.spi_bus.polarity = polarity;
        self.spi_bus.phase = phase;
        writes
    }
}

} // verus!
