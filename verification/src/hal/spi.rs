//! SPI on the eUSCI peripherals (E_USCI_A0, E_USCI_A1, E_USCI_B0, E_USCI_B1).
//!
//! An `SpiConfig` is assembled in steps and applied to produce an `SpiBus`.
//! Configuring the hardware is a fixed sequence of register writes; the
//! configuration functions return that sequence for the caller to perform,
//! and the polling functions decide the outcome of a read, send or flush from
//! the flags read back from the peripheral.
use vstd::prelude::*;
use crate::hal::eusci::{UcsselSpi, UcxCtl0Spi, SpiRegisterWrite};
use crate::hal::eusci_utils::{BitOrder, BitCount, Loopback};

verus! {

/// SPI error conditions.
#[derive(Clone, Copy, Debug, PartialEq, Eq, Structural)]
pub enum SpiError {
    /// Unread received data was overwritten with newer data. Contains the
    /// latest word, which is still valid.
    Overrun(u8),
    /// An SPI framing error.
    Framing,
}

/// Outcome of a non-blocking operation that did not complete.
#[derive(Debug, PartialEq, Eq)]
pub enum PollError<E> {
    /// The operation cannot complete yet; try again.
    WouldBlock,
    /// The operation failed.
    Other(E),
}

/// SPI clock polarity.
#[derive(Clone, Copy, Debug, PartialEq, Eq, Structural)]
pub enum Polarity {
    /// SCK idles at Vcc
    IdleHigh,
    /// SCK idles at GND
    IdleLow,
}

impl From<Polarity> for bool {
    fn from(value: Polarity) -> (b: bool) {
        match value {
            Polarity::IdleHigh => true,
            Polarity::IdleLow => false,
        }
    }
}

impl vstd::std_specs::convert::FromSpecImpl<Polarity> for bool {
    open spec fn obeys_from_spec() -> bool {
        true
    }

    open spec fn from_spec(value: Polarity) -> bool {
        value == Polarity::IdleHigh
    }
}

/// SPI clock phase.
#[derive(Clone, Copy, Debug, PartialEq, Eq, Structural)]
pub enum Phase {
    /// Data is captured on the first UCLK edge and changed on the following edge
    CaptureOnFirstEdge,
    /// Data is changed on the first UCLK edge and captured on the following edge
    CaptureOnSecondEdge,
}

impl From<Phase> for bool {
    fn from(value: Phase) -> (b: bool) {
        match value {
            Phase::CaptureOnFirstEdge => true,
            Phase::CaptureOnSecondEdge => false,
        }
    }
}

impl vstd::std_specs::convert::FromSpecImpl<Phase> for bool {
    open spec fn obeys_from_spec() -> bool {
        true
    }

    open spec fn from_spec(value: Phase) -> bool {
        value == Phase::CaptureOnFirstEdge
    }
}

/// An eUSCI peripheral usable as an SPI bus, with the pin types of its lines.
pub trait SpiUsci {
    /// Pin used for serial SCK
    type SckPin;
    /// Pin used for MOSI
    type MosiPin;
    /// Pin used for MISO
    type MisoPin;
}

/// SPI bus. `read` only reads the receive buffer, so a packet must be sent
/// to a slave before data can be read.
pub struct SpiBus<USCI: SpiUsci> {
    sck: USCI::SckPin,
    mosi: USCI::MosiPin,
    miso: USCI::MisoPin,
    pub usci: USCI,
}

/// Typestate of a configuration that has not chosen a clock yet.
pub struct NoClockSet {
    pub baudrate: u32,
}

/// Typestate of a configuration that has chosen a clock.
pub struct ClockSet {
    pub prescaler: u16,
    pub clksel: UcsselSpi,
}

/// SPI configuration. Produces an `SpiBus` when fully configured.
pub struct SpiConfig<USCI, State> {
    pub usci: USCI,
    pub phase: Phase,
    pub polarity: Polarity,
    pub order: BitOrder,
    pub count: BitCount,
    pub loopback: Loopback,
    pub state: State,
}

/// Prescaler dividing `clk_freq` down to `baudrate`: the quotient (a zero
/// baud rate counts as one), saturated to 16 bits.
pub open spec fn spec_prescaler(clk_freq: u32, baudrate: u32) -> u16 {
    let q = clk_freq / (if baudrate < 1 { 1 } else { baudrate });
    if q > u16::MAX { u16::MAX } else { q as u16 }
}

/// The control-register settings for a master bus with these parameters.
pub open spec fn spec_ctl0(polarity: Polarity, phase: Phase, order: BitOrder, count: BitCount, clock: UcsselSpi) -> UcxCtl0Spi {
    UcxCtl0Spi {
        ucckph: phase == Phase::CaptureOnFirstEdge,
        ucckpl: polarity == Polarity::IdleHigh,
        ucmsb: order == BitOrder::MsbFirst,
        uc7bit: count == BitCount::SevenBits,
        ucmst: true,
        ucssel: clock,
    }
}

/// The register writes that apply a configuration: hold the peripheral in
/// reset, clear modulation, set the prescaler and loopback, then the control
/// settings.
pub open spec fn spec_config_writes(
    polarity: Polarity,
    phase: Phase,
    order: BitOrder,
    count: BitCount,
    loopback: Loopback,
    prescaler: u16,
    clock: UcsselSpi,
) -> Seq<SpiRegisterWrite> {
    seq![
        SpiRegisterWrite::Ctl0Reset,
        SpiRegisterWrite::ClearMctlw,
        SpiRegisterWrite::BrwSettings(prescaler),
        SpiRegisterWrite::Loopback(loopback == Loopback::Loopback),
        SpiRegisterWrite::Ctl0Settings(spec_ctl0(polarity, phase, order, count, clock)),
    ]
}

/// The register writes that reconfigure a running bus.
pub open spec fn spec_reconfigure_writes(
    polarity: Polarity,
    phase: Phase,
    order: BitOrder,
    count: BitCount,
    clock: UcsselSpi,
) -> Seq<SpiRegisterWrite> {
    seq![
        SpiRegisterWrite::Ctl0Reset,
        SpiRegisterWrite::Ctl0Settings(spec_ctl0(polarity, phase, order, count, clock)),
    ]
}

/// Prescaler that divides `clk_freq` down to `baudrate`.
pub fn calculate_prescaler(clk_freq: u32, baudrate: u32) -> (prescaler: u16)
    ensures
        prescaler == spec_prescaler(clk_freq, baudrate),
{
    let divisor: u32 = if baudrate < 1 { 1 } else { baudrate };
    let prescaler: u32 = clk_freq / divisor;
    if prescaler > u16::MAX as u32 {
        u16::MAX
    } else {
        prescaler as u16
    }
}

fn ctl0_settings(polarity: Polarity, phase: Phase, order: BitOrder, count: BitCount, clock: UcsselSpi) -> (reg: UcxCtl0Spi)
    ensures
        reg == spec_ctl0(polarity, phase, order, count, clock),
{
    UcxCtl0Spi {
        ucckph: bool::from(phase),
        ucckpl: bool::from(polarity),
        ucmsb: order.to_bool(),
        uc7bit: count.to_bool(),
        ucmst: true,
        ucssel: clock,
    }
}

impl<USCI: SpiUsci> SpiConfig<USCI, NoClockSet> {
    /// Begins assembling an SPI configuration.
    pub fn new(
        usci: USCI,
        polarity: Polarity,
        phase: Phase,
        order: BitOrder,
        count: BitCount,
        loopback: Loopback,
        baudrate: u32,
    ) -> (config: Self)
        ensures
            config.usci == usci,
            config.polarity == polarity,
            config.phase == phase,
            config.order == order,
            config.count == count,
            config.loopback == loopback,
            config.state.baudrate == baudrate,
    {
        SpiConfig { usci, polarity, phase, order, count, loopback, state: NoClockSet { baudrate } }
    }

    /// Configures SPI to use ACLK running at `aclk_freq` Hz.
    pub fn use_aclk(self, aclk_freq: u16) -> (config: SpiConfig<USCI, ClockSet>)
        ensures
            config.usci == self.usci,
            config.polarity == self.polarity,
            config.phase == self.phase,
            config.order == self.order,
            config.count == self.count,
            config.loopback == self.loopback,
            config.state.prescaler == spec_prescaler(aclk_freq as u32, self.state.baudrate),
            config.state.clksel == UcsselSpi::Aclk,
    {
        let prescaler = calculate_prescaler(aclk_freq as u32, self.state.baudrate);
        SpiConfig {
            usci: self.usci,
            polarity: self.polarity,
            phase: self.phase,
            order: self.order,
            count: self.count,
            loopback: self.loopback,
            state: ClockSet { prescaler, clksel: UcsselSpi::Aclk },
        }
    }

    /// Configures SPI to use SMCLK running at `smclk_freq` Hz.
    pub fn use_smclk(self, smclk_freq: u32) -> (config: SpiConfig<USCI, ClockSet>)
        ensures
            config.usci == self.usci,
            config.polarity == self.polarity,
            config.phase == self.phase,
            config.order == self.order,
            config.count == self.count,
            config.loopback == self.loopback,
            config.state.prescaler == spec_prescaler(smclk_freq, self.state.baudrate),
            config.state.clksel == UcsselSpi::Smclk,
    {
        let prescaler = calculate_prescaler(smclk_freq, self.state.baudrate);
        SpiConfig {
            usci: self.usci,
            polarity: self.polarity,
            phase: self.phase,
            order: self.order,
            count: self.count,
            loopback: self.loopback,
            state: ClockSet { prescaler, clksel: UcsselSpi::Smclk },
        }
    }
}

impl<USCI: SpiUsci> SpiConfig<USCI, ClockSet> {
    /// The register writes that put the configuration into the peripheral.
    fn config_hw(self) -> (r: (USCI, Vec<SpiRegisterWrite>))
        ensures
            r.0 == self.usci,
            r.1@ == spec_config_writes(
                self.polarity,
                self.phase,
                self.order,
                self.count,
                self.loopback,
                self.state.prescaler,
                self.state.clksel,
            ),
    {
        let mut writes: Vec<SpiRegisterWrite> = Vec::new();
        writes.push(SpiRegisterWrite::Ctl0Reset);
        writes.push(SpiRegisterWrite::ClearMctlw);
        writes.push(SpiRegisterWrite::BrwSettings(self.state.prescaler));
        writes.push(SpiRegisterWrite::Loopback(self.loopback.to_bool()));
        writes.push(
            SpiRegisterWrite::Ctl0Settings(
                ctl0_settings(self.polarity, self.phase, self.order, self.count, self.state.clksel),
            ),
        );
        assert(writes@ =~= spec_config_writes(
            self.polarity,
            self.phase,
            self.order,
            self.count,
            self.loopback,
            self.state.prescaler,
            self.state.clksel,
        ));
        (self.usci, writes)
    }

    /// Takes the SPI pins, and returns the bus together with the register
    /// writes that apply the configuration and reset the peripheral.
    pub fn apply_config(self, sck_pin: USCI::SckPin, mosi_pin: USCI::MosiPin, miso_pin: USCI::MisoPin) -> (r: (
        SpiBus<USCI>,
        Vec<SpiRegisterWrite>,
    ))
        ensures
            r.0.spec_usci() == self.usci,
            r.0.spec_sck() == sck_pin,
            r.0.spec_mosi() == mosi_pin,
            r.0.spec_miso() == miso_pin,
            r.1@ == spec_config_writes(
                self.polarity,
                self.phase,
                self.order,
                self.count,
                self.loopback,
                self.state.prescaler,
                self.state.clksel,
            ),
    {
        let (usci, writes) = self.config_hw();
        (SpiBus { sck: sck_pin, mosi: mosi_pin, miso: miso_pin, usci }, writes)
    }
}

/// A register read made by a read from the bus.
#[derive(Clone, Copy, Debug, PartialEq, Eq, Structural)]
pub enum SpiRegisterRead {
    /// The receive-interrupt flag.
    RxFlag,
    /// The status register (framing and overrun flags).
    Status,
    /// The receive buffer.
    RxBuffer,
}

/// The registers a read from the bus reads, in order: the receive flag; only
/// when a byte is ready, the status register and then the receive buffer, so
/// that the buffer is left unread until a byte has arrived.
pub open spec fn spec_read_registers(rx_ready: bool) -> Seq<SpiRegisterRead> {
    if rx_ready {
        seq![SpiRegisterRead::RxFlag, SpiRegisterRead::Status, SpiRegisterRead::RxBuffer]
    } else {
        seq![SpiRegisterRead::RxFlag]
    }
}

impl<USCI: SpiUsci> SpiBus<USCI> {
    /// The peripheral.
    pub closed spec fn spec_usci(&self) -> USCI {
        self.usci
    }

    /// The clock pin.
    pub closed spec fn spec_sck(&self) -> USCI::SckPin {
        self.sck
    }

    /// The MOSI pin.
    pub closed spec fn spec_mosi(&self) -> USCI::MosiPin {
        self.mosi
    }

    /// The MISO pin.
    pub closed spec fn spec_miso(&self) -> USCI::MisoPin {
        self.miso
    }

    /// The register writes that reconfigure polarity, phase, bit order,
    /// character length and clock without remaking the bus.
    pub fn reconfigure(
        &mut self,
        polarity: Polarity,
        phase: Phase,
        order: BitOrder,
        count: BitCount,
        clock: UcsselSpi,
    ) -> (writes: Vec<SpiRegisterWrite>)
        ensures
            writes@ == spec_reconfigure_writes(polarity, phase, order, count, clock),
            *final(self) == spec_reconfigured(*old(self), polarity, phase, order, count, clock),
    {
        let mut writes: Vec<SpiRegisterWrite> = Vec::new();
        writes.push(SpiRegisterWrite::Ctl0Reset);
        writes.push(SpiRegisterWrite::Ctl0Settings(ctl0_settings(polarity, phase, order, count, clock)));
        assert(writes@ =~= spec_reconfigure_writes(polarity, phase, order, count, clock));
        writes
    }

    /// Consumes the bus to return the pins.
    pub fn return_pins(self) -> (pins: (USCI::SckPin, USCI::MosiPin, USCI::MisoPin))
        ensures
            pins.0 == self.spec_sck(),
            pins.1 == self.spec_mosi(),
            pins.2 == self.spec_miso(),
    {
        (self.sck, self.mosi, self.miso)
    }

    /// The registers to read after the receive flag reads `rx_ready`, in
    /// order: the status register, then the receive buffer; none when no
    /// byte is ready.
    pub fn read_registers(rx_ready: bool) -> (reads: Vec<SpiRegisterRead>)
        ensures
            seq![SpiRegisterRead::RxFlag] + reads@ == spec_read_registers(rx_ready),
    {
        let reads = if rx_ready {
            vec![SpiRegisterRead::Status, SpiRegisterRead::RxBuffer]
        } else {
            Vec::new()
        };
        assert(seq![SpiRegisterRead::RxFlag] + reads@ =~= spec_read_registers(rx_ready));
        reads
    }

    /// Outcome of a read, given the receive-interrupt flag, the framing and
    /// overrun flags of the status register and the receive buffer, each read
    /// as `spec_read_registers` orders.
    pub fn read_outcome(rx_ready: bool, framing_error: bool, overrun: bool, word: u8) -> (r: Result<u8, PollError<SpiError>>)
        ensures
            !rx_ready ==> r == Err::<u8, PollError<SpiError>>(PollError::WouldBlock),
            rx_ready && framing_error ==> r == Err::<u8, PollError<SpiError>>(PollError::Other(SpiError::Framing)),
            rx_ready && !framing_error && overrun ==> r == Err::<u8, PollError<SpiError>>(
                PollError::Other(SpiError::Overrun(word)),
            ),
            rx_ready && !framing_error && !overrun ==> r == Ok::<u8, PollError<SpiError>>(word),
            // The flags and the word come from the reads `spec_read_registers`
            // makes: none is read when no byte is ready, and the status is
            // read before the buffer.
            !rx_ready ==> spec_read_registers(rx_ready) == seq![SpiRegisterRead::RxFlag],
            rx_ready ==> spec_read_registers(rx_ready) == seq![
                SpiRegisterRead::RxFlag,
                SpiRegisterRead::Status,
                SpiRegisterRead::RxBuffer,
            ],
    {
        if rx_ready {
            if framing_error {
                Err(PollError::Other(SpiError::Framing))
            } else if overrun {
                Err(PollError::Other(SpiError::Overrun(word)))
            } else {
                Ok(word)
            }
        } else {
            Err(PollError::WouldBlock)
        }
    }

    /// Outcome of a send, given the transmit-interrupt flag: when it is set the
    /// word is written to the transmit buffer and the send completes.
    pub fn send_outcome(tx_ready: bool) -> (r: Result<(), PollError<SpiError>>)
        ensures
            tx_ready ==> r == Ok::<(), PollError<SpiError>>(()),
            !tx_ready ==> r == Err::<(), PollError<SpiError>>(PollError::WouldBlock),
    {
        if tx_ready {
            Ok(())
        } else {
            Err(PollError::WouldBlock)
        }
    }

    /// Whether transmission has completed, given the busy flag. Check this
    /// before de-asserting chip select.
    pub fn flush_outcome(busy: bool) -> (r: Result<(), PollError<SpiError>>)
        ensures
            busy ==> r == Err::<(), PollError<SpiError>>(PollError::WouldBlock),
            !busy ==> r == Ok::<(), PollError<SpiError>>(()),
    {
        if busy {
            Err(PollError::WouldBlock)
        } else {
            Ok(())
        }
    }
}

/// The bus after `reconfigure`: the settings go to the registers through the
/// writes it returns, so the bus value (its pins and peripheral) is kept.
pub open spec fn spec_reconfigured<USCI: SpiUsci>(
    bus: SpiBus<USCI>,
    polarity: Polarity,
    phase: Phase,
    order: BitOrder,
    count: BitCount,
    clock: UcsselSpi,
) -> SpiBus<USCI> {
    bus
}

/// A call on a bus.
#[derive(Clone, Copy, Debug, PartialEq, Eq, Structural)]
pub enum SpiBusCall {
    /// `reconfigure` with these settings.
    Reconfigure(Polarity, Phase, BitOrder, BitCount, UcsselSpi),
    /// A read: its outcome is decided by `read_outcome`, which takes no bus.
    Read,
    /// A send: its outcome is decided by `send_outcome`, which takes no bus.
    Send,
    /// A flush: its outcome is decided by `flush_outcome`, which takes no bus.
    Flush,
}

/// The bus after one call, as the calls' contracts state it.
pub open spec fn spec_after_call<USCI: SpiUsci>(bus: SpiBus<USCI>, call: SpiBusCall) -> SpiBus<USCI> {
    match call {
        SpiBusCall::Reconfigure(polarity, phase, order, count, clock) => spec_reconfigured(
            bus,
            polarity,
            phase,
            order,
            count,
            clock,
        ),
        _ => bus,
    }
}

/// The bus after a sequence of calls, in order.
pub open spec fn spec_after_calls<USCI: SpiUsci>(bus: SpiBus<USCI>, calls: Seq<SpiBusCall>) -> SpiBus<USCI>
    decreases calls.len(),
{
    if calls.len() == 0 {
        bus
    } else {
        spec_after_call(spec_after_calls(bus, calls.drop_last()), calls.last())
    }
}

/// Law: a bus made by `apply_config` from three pins gives back those three
/// pins, in the order SCK, MOSI, MISO, after any sequence of reconfigure,
/// read, send and flush calls.
pub proof fn pins_kept_over_calls<USCI: SpiUsci>(
    bus: SpiBus<USCI>,
    sck: USCI::SckPin,
    mosi: USCI::MosiPin,
    miso: USCI::MisoPin,
    calls: Seq<SpiBusCall>,
)
    requires
        bus.spec_sck() == sck,
        bus.spec_mosi() == mosi,
        bus.spec_miso() == miso,
    ensures
        spec_after_calls(bus, calls).spec_sck() == sck,
        spec_after_calls(bus, calls).spec_mosi() == mosi,
        spec_after_calls(bus, calls).spec_miso() == miso,
    decreases calls.len(),
{
    if calls.len() > 0 {
        pins_kept_over_calls(bus, sck, mosi, miso, calls.drop_last());
    }
}

/// Law: applying a configuration and later reconfiguring a bus with the same
/// parameters write the same control settings, and both hold the peripheral
/// in reset before any other register is written.
pub proof fn reconfigure_matches_apply_config(
    polarity: Polarity,
    phase: Phase,
    order: BitOrder,
    count: BitCount,
    loopback: Loopback,
    prescaler: u16,
    clock: UcsselSpi,
)
    ensures
        spec_config_writes(polarity, phase, order, count, loopback, prescaler, clock).last()
            == spec_reconfigure_writes(polarity, phase, order, count, clock).last(),
        spec_config_writes(polarity, phase, order, count, loopback, prescaler, clock)[0]
            == SpiRegisterWrite::Ctl0Reset,
        spec_reconfigure_writes(polarity, phase, order, count, clock)[0] == SpiRegisterWrite::Ctl0Reset,
        forall|i: int|
            1 <= i < spec_config_writes(polarity, phase, order, count, loopback, prescaler, clock).len()
                ==> spec_config_writes(polarity, phase, order, count, loopback, prescaler, clock)[i]
                != SpiRegisterWrite::Ctl0Reset,
{
}

/// Law: the prescaler never exceeds the clock frequency, and a clock at
/// least as fast as the baud rate never yields a zero prescaler.
pub proof fn prescaler_bounds(clk_freq: u32, baudrate: u32)
    ensures
        spec_prescaler(clk_freq, baudrate) <= clk_freq,
        baudrate >= 1 && clk_freq >= baudrate ==> spec_prescaler(clk_freq, baudrate) >= 1,
{
    let d = if baudrate < 1 { 1u32 } else { baudrate };
    vstd::arithmetic::div_mod::lemma_div_is_ordered_by_denominator(clk_freq as int, 1, d as int);
    if baudrate >= 1 && clk_freq >= baudrate {
        crate::wrap::lemma_div_ge_bound(clk_freq as int, d as int, 1);
    }
}

} // verus!
