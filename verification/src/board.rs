//! Board bring-up decisions: which microcontroller pin serves which
//! function, the LED pattern shown while idle, and the busy-wait delay.
use vstd::prelude::*;

verus! {

/// How a pin is configured.
#[derive(Clone, Copy, Debug, PartialEq, Eq, Structural)]
pub enum PinMode {
    Output,
    InputPullup,
    InputPulldown,
    /// Output, then handed to a peripheral (alternate function 1).
    Alternate1,
}

/// A function of the board that needs a pin.
#[derive(Clone, Copy, Debug, PartialEq, Eq, Structural)]
pub enum PinFunction {
    PayloadSpiMiso,
    PayloadSpiMosi,
    PayloadSpiSck,
    BurnWire1,
    BurnWire1Backup,
    BurnWire2,
    BurnWire2Backup,
    RedLed,
    YellowLed,
    GreenLed,
    PayloadEnable,
    HeaterEnable,
    CathodeSwitch,
    TetherSwitch,
    LmsReceiverEnable,
    LmsLedEnable,
    EndmassSense1,
    EndmassSense2,
    PinpullerSense,
    DigipotChipSelect,
    DacChipSelect,
    TetherAdcChipSelect,
    TemperatureAdcChipSelect,
    MiscAdcChipSelect,
    ApertureAdcChipSelect,
    DebugSerialRx,
    DebugSerialTx,
}

/// A pin assignment: a function on `port`.`pin` in a mode.
#[derive(Clone, Copy, Debug, PartialEq, Eq, Structural)]
pub struct PinAssignment {
    pub function: PinFunction,
    pub port: u8,
    pub pin: u8,
    pub mode: PinMode,
}

/// Shorthand for a pin assignment.
pub open spec fn pa(function: PinFunction, port: u8, pin: u8, mode: PinMode) -> PinAssignment {
    PinAssignment { function, port, pin, mode }
}

/// The board's pin map.
pub open spec fn spec_pin_map() -> Seq<PinAssignment> {
    seq![
        pa(PinFunction::PayloadSpiMiso, 4, 7, PinMode::InputPullup),
        pa(PinFunction::PayloadSpiMosi, 4, 6, PinMode::Output),
        pa(PinFunction::PayloadSpiSck, 4, 5, PinMode::Output),
        pa(PinFunction::BurnWire1, 3, 2, PinMode::Output),
        pa(PinFunction::BurnWire1Backup, 3, 3, PinMode::Output),
        pa(PinFunction::BurnWire2, 5, 0, PinMode::Output),
        pa(PinFunction::BurnWire2Backup, 5, 1, PinMode::Output),
        pa(PinFunction::RedLed, 2, 1, PinMode::Output),
        pa(PinFunction::YellowLed, 2, 2, PinMode::Output),
        pa(PinFunction::GreenLed, 2, 3, PinMode::Output),
        pa(PinFunction::PayloadEnable, 6, 6, PinMode::Output),
        pa(PinFunction::HeaterEnable, 4, 4, PinMode::Output),
        pa(PinFunction::CathodeSwitch, 3, 0, PinMode::Output),
        pa(PinFunction::TetherSwitch, 6, 1, PinMode::Output),
        pa(PinFunction::LmsReceiverEnable, 3, 4, PinMode::Output),
        pa(PinFunction::LmsLedEnable, 3, 5, PinMode::Output),
        pa(PinFunction::EndmassSense1, 5, 2, PinMode::InputPulldown),
        pa(PinFunction::EndmassSense2, 3, 1, PinMode::InputPulldown),
        pa(PinFunction::PinpullerSense, 5, 3, PinMode::InputPullup),
        pa(PinFunction::DigipotChipSelect, 6, 4, PinMode::Output),
        pa(PinFunction::DacChipSelect, 6, 3, PinMode::Output),
        pa(PinFunction::TetherAdcChipSelect, 6, 2, PinMode::Output),
        pa(PinFunction::TemperatureAdcChipSelect, 6, 0, PinMode::Output),
        pa(PinFunction::MiscAdcChipSelect, 5, 4, PinMode::Output),
        pa(PinFunction::ApertureAdcChipSelect, 1, 3, PinMode::Output),
        pa(PinFunction::DebugSerialRx, 4, 2, PinMode::Alternate1),
        pa(PinFunction::DebugSerialTx, 4, 3, PinMode::Alternate1),
    ]
}

/// The pin map that board bring-up applies: each function's port, pin and
/// mode.
pub fn collect_pins() -> (map: Vec<PinAssignment>)
    ensures
        map@ == spec_pin_map(),
{
    vec![
        PinAssignment { function: PinFunction::PayloadSpiMiso, port: 4, pin: 7, mode: PinMode::InputPullup },
        PinAssignment { function: PinFunction::PayloadSpiMosi, port: 4, pin: 6, mode: PinMode::Output },
        PinAssignment { function: PinFunction::PayloadSpiSck, port: 4, pin: 5, mode: PinMode::Output },
        PinAssignment { function: PinFunction::BurnWire1, port: 3, pin: 2, mode: PinMode::Output },
        PinAssignment { function: PinFunction::BurnWire1Backup, port: 3, pin: 3, mode: PinMode::Output },
        PinAssignment { function: PinFunction::BurnWire2, port: 5, pin: 0, mode: PinMode::Output },
        PinAssignment { function: PinFunction::BurnWire2Backup, port: 5, pin: 1, mode: PinMode::Output },
        PinAssignment { function: PinFunction::RedLed, port: 2, pin: 1, mode: PinMode::Output },
        PinAssignment { function: PinFunction::YellowLed, port: 2, pin: 2, mode: PinMode::Output },
        PinAssignment { function: PinFunction::GreenLed, port: 2, pin: 3, mode: PinMode::Output },
        PinAssignment { function: PinFunction::PayloadEnable, port: 6, pin: 6, mode: PinMode::Output },
        PinAssignment { function: PinFunction::HeaterEnable, port: 4, pin: 4, mode: PinMode::Output },
        PinAssignment { function: PinFunction::CathodeSwitch, port: 3, pin: 0, mode: PinMode::Output },
        PinAssignment { function: PinFunction::TetherSwitch, port: 6, pin: 1, mode: PinMode::Output },
        PinAssignment { function: PinFunction::LmsReceiverEnable, port: 3, pin: 4, mode: PinMode::Output },
        PinAssignment { function: PinFunction::LmsLedEnable, port: 3, pin: 5, mode: PinMode::Output },
        PinAssignment { function: PinFunction::EndmassSense1, port: 5, pin: 2, mode: PinMode::InputPulldown },
        PinAssignment { function: PinFunction::EndmassSense2, port: 3, pin: 1, mode: PinMode::InputPulldown },
        PinAssignment { function: PinFunction::PinpullerSense, port: 5, pin: 3, mode: PinMode::InputPullup },
        PinAssignment { function: PinFunction::DigipotChipSelect, port: 6, pin: 4, mode: PinMode::Output },
        PinAssignment { function: PinFunction::DacChipSelect, port: 6, pin: 3, mode: PinMode::Output },
        PinAssignment { function: PinFunction::TetherAdcChipSelect, port: 6, pin: 2, mode: PinMode::Output },
        PinAssignment { function: PinFunction::TemperatureAdcChipSelect, port: 6, pin: 0, mode: PinMode::Output },
        PinAssignment { function: PinFunction::MiscAdcChipSelect, port: 5, pin: 4, mode: PinMode::Output },
        PinAssignment { function: PinFunction::ApertureAdcChipSelect, port: 1, pin: 3, mode: PinMode::Output },
        PinAssignment { function: PinFunction::DebugSerialRx, port: 4, pin: 2, mode: PinMode::Alternate1 },
        PinAssignment { function: PinFunction::DebugSerialTx, port: 4, pin: 3, mode: PinMode::Alternate1 },
    ]
}

/// Law: no two functions share a pin, no function is assigned twice, and
/// every pin exists (ports 1 to 6, pins 0 to 7).
pub proof fn pin_map_is_consistent()
    ensures
        forall|i: int, j: int|
            0 <= i < j < spec_pin_map().len() ==> (#[trigger] spec_pin_map()[i]).port != (
            #[trigger] spec_pin_map()[j]).port || spec_pin_map()[i].pin != spec_pin_map()[j].pin,
        forall|i: int, j: int|
            0 <= i < j < spec_pin_map().len() ==> (#[trigger] spec_pin_map()[i]).function != (
            #[trigger] spec_pin_map()[j]).function,
        forall|i: int|
            0 <= i < spec_pin_map().len() ==> 1 <= (#[trigger] spec_pin_map()[i]).port <= 6
                && spec_pin_map()[i].pin <= 7,
{
    let m = spec_pin_map();
    assert(m.len() == 27);
    assert forall|i: int, j: int| 0 <= i < j < m.len() implies (#[trigger] m[i]).port != (#[trigger] m[j]).port
        || m[i].pin != m[j].pin by {
        assert(m[i].port * 8 + m[i].pin != m[j].port * 8 + m[j].pin);
    }
}

/// An indicator LED.
#[derive(Clone, Copy, Debug, PartialEq, Eq, Structural)]
pub enum LedColour {
    Green,
    Yellow,
    Red,
}

/// One step of the idle LED pattern: the counter advances modulo 4, and
/// steps 1, 2 and 3 toggle the green, yellow and red LED.
pub fn snake_leds(n: &mut u8) -> (toggle: Option<LedColour>)
    requires
        *old(n) < u8::MAX,
    ensures
        *final(n) == (*old(n) + 1) % 4,
        *final(n) == 0 ==> toggle is None,
        *final(n) == 1 ==> toggle == Some(LedColour::Green),
        *final(n) == 2 ==> toggle == Some(LedColour::Yellow),
        *final(n) == 3 ==> toggle == Some(LedColour::Red),
{
    let next: u8 = (*n + 1) % 4;
    *n = next;
    match next {
        1 => Some(LedColour::Green),
        2 => Some(LedColour::Yellow),
        3 => Some(LedColour::Red),
        _ => None,
    }
}

/// Number of idle iterations that approximate a delay of `num_cycles` CPU
/// cycles: `6 * num_cycles / 128`.
pub fn delay_iterations(num_cycles: u32) -> (iterations: u32)
    requires
        6 * num_cycles <= u32::MAX,
    ensures
        iterations == (6 * num_cycles) / 128,
{
    (6 * num_cycles) / 128
}

} // verus!
