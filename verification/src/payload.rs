//! High-level interface to the payload: bound enforcement, the power-state
//! machine, and the SPI frames that set supplies and read sensors.
use vstd::prelude::*;
use core::cmp::Ordering;
use vstd::std_specs::cmp::OrdSpec;
use crate::pcb_mapping::{PayloadPinTypes, PayloadPeripherals};
use crate::pcb_mapping::power_supply_limits::{
    HEATER_MAX_VOLTAGE_MILLIVOLTS, HEATER_MIN_VOLTAGE_MILLIVOLTS, CATHODE_OFFSET_MAX_VOLTAGE_MILLIVOLTS,
    CATHODE_OFFSET_MIN_VOLTAGE_MILLIVOLTS, TETHER_BIAS_MAX_VOLTAGE_MILLIVOLTS, TETHER_BIAS_MIN_VOLTAGE_MILLIVOLTS,
};
use crate::pcb_mapping::power_supply_locations::{
    CATHODE_OFFSET_SUPPLY_CONTROL_CHANNEL, TETHER_BIAS_SUPPLY_CONTROL_CHANNEL, HEATER_DIGIPOT_CHANNEL,
};
use crate::pcb_mapping::power_supply_equations::{
    heater_target_voltage_to_digipot_resistance, spec_heater_digipot_resistance,
    tether_bias_target_voltage_to_dac_voltage, cathode_offset_target_voltage_to_dac_voltage,
};
use crate::adc::{ADC, TetherSensor, TemperatureSensor, MiscSensor, VccType, spec_count_from_reply, spec_count_to_voltage};
use crate::pcb_mapping::sensor_locations::{
    tether_sensor, misc_sensor, REPELLER_VOLTAGE_CHANNEL, HEATER_VOLTAGE_CHANNEL, HEATER_CURRENT_CHANNEL,
    CATHODE_OFFSET_CURRENT_CHANNEL, TETHER_BIAS_CURRENT_CHANNEL, TETHER_BIAS_VOLTAGE_CHANNEL,
    CATHODE_OFFSET_VOLTAGE_CHANNEL, PINPULLER_CURRENT_CHANNEL, LMS_RECEIVER_1_CHANNEL, LMS_RECEIVER_2_CHANNEL,
    LMS_RECEIVER_3_CHANNEL, APERTURE_CURRENT_CHANNEL,
};
use crate::pcb_mapping::sensor_equations::{
    lms_temperature_eq, payload_temperature_eq, spec_temperature_kelvin, aperture_current_sensor_eq,
    spec_aperture_current, pinpuller_current_sensor_eq, heater_voltage_eq, spec_heater_voltage, heater_current_eq,
    spec_heater_current, tether_bias_voltage_eq, tether_bias_current_eq, cathode_offset_voltage_eq,
    cathode_offset_current_eq, repeller_voltage_eq,
};
use crate::fixed_point::trunc_div;
use crate::dac::{DAC, DACCommand, DACChannel, spec_command_frame, spec_voltage_to_count};
use crate::digipot::{Digipot, DigipotChannel, spec_channel_frame, spec_resistance_to_count};
use crate::spi::SpiFrame;
use crate::adc::ADCChannel;

verus! {

/// `a.min(b)` as `Ord::min` specifies it.
pub open spec fn ord_min<T: Ord>(a: T, b: T) -> T {
    match b.cmp_spec(&a) {
        Ordering::Less => b,
        _ => a,
    }
}

/// `a.max(b)` as `Ord::max` specifies it.
pub open spec fn ord_max<T: Ord>(a: T, b: T) -> T {
    match b.cmp_spec(&a) {
        Ordering::Less => a,
        _ => b,
    }
}

/// `num.min(upper).max(lower)`.
pub open spec fn spec_enforce_bounds<T: Ord>(lower_bound: T, num: T, upper_bound: T) -> T {
    ord_max(ord_min(num, upper_bound), lower_bound)
}

/// Returns `num` clamped so that `lower_bound <= num <= upper_bound`.
pub fn enforce_bounds<T: Ord>(lower_bound: T, num: T, upper_bound: T) -> (r: T)
    ensures
        T::obeys_cmp_spec() ==> r == spec_enforce_bounds(lower_bound, num, upper_bound),
{
    num.min(upper_bound).max(lower_bound)
}

/// Whether `cmp_spec` orders `T` totally: `Equal` exactly on equal values,
/// `Less` one way exactly when `Greater` the other, and `Less` transitive.
pub open spec fn total_order<T: Ord>() -> bool {
    &&& forall|a: T, b: T| #[trigger] a.cmp_spec(&b) == Ordering::Equal <==> a == b
    &&& forall|a: T, b: T| #[trigger] a.cmp_spec(&b) == Ordering::Less <==> b.cmp_spec(&a) == Ordering::Greater
    &&& forall|a: T, b: T, c: T|
        #[trigger] a.cmp_spec(&b) == Ordering::Less && #[trigger] b.cmp_spec(&c) == Ordering::Less ==> a.cmp_spec(&c)
            == Ordering::Less
}

/// `a <= b` by `cmp_spec`.
pub open spec fn cmp_le<T: Ord>(a: T, b: T) -> bool {
    a.cmp_spec(&b) != Ordering::Greater
}

/// Law: for any totally ordered type, with ordered bounds, the result of
/// `enforce_bounds` lies between them, equals `num` whenever `num` already
/// does, and enforcing the same bounds twice changes nothing.
pub proof fn enforce_bounds_clamps<T: Ord>(lower_bound: T, num: T, upper_bound: T)
    requires
        total_order::<T>(),
        cmp_le(lower_bound, upper_bound),
    ensures
        cmp_le(lower_bound, spec_enforce_bounds(lower_bound, num, upper_bound)),
        cmp_le(spec_enforce_bounds(lower_bound, num, upper_bound), upper_bound),
        cmp_le(lower_bound, num) && cmp_le(num, upper_bound) ==> spec_enforce_bounds(lower_bound, num, upper_bound)
            == num,
        spec_enforce_bounds(lower_bound, spec_enforce_bounds(lower_bound, num, upper_bound), upper_bound)
            == spec_enforce_bounds(lower_bound, num, upper_bound),
{
    let m = ord_min(num, upper_bound);
    let r = ord_max(m, lower_bound);
    assert(cmp_le(m, upper_bound)) by {
        if upper_bound.cmp_spec(&num) == Ordering::Less {
            assert(upper_bound.cmp_spec(&upper_bound) == Ordering::Equal);
        } else {
            assert(num.cmp_spec(&upper_bound) != Ordering::Greater);
        }
    }
    if m.cmp_spec(&lower_bound) == Ordering::Less {
        assert(r == lower_bound);
        assert(lower_bound.cmp_spec(&lower_bound) == Ordering::Equal);
    } else {
        assert(r == m);
        assert(lower_bound.cmp_spec(&m) != Ordering::Greater);
    }
    assert(cmp_le(lower_bound, r));
    assert(cmp_le(r, upper_bound)) by {
        if r == lower_bound {
        } else {
            assert(r == m);
        }
    }
    if cmp_le(lower_bound, num) && cmp_le(num, upper_bound) {
        assert(upper_bound.cmp_spec(&num) != Ordering::Less);
        assert(m == num);
        assert(num.cmp_spec(&lower_bound) != Ordering::Less);
    }
    let m2 = ord_min(r, upper_bound);
    assert(upper_bound.cmp_spec(&r) != Ordering::Less);
    assert(m2 == r);
    assert(r.cmp_spec(&lower_bound) != Ordering::Less);
}

/// On unsigned integers, `enforce_bounds` is the clamp into
/// `[lower_bound, upper_bound]` (the lower bound wins when the bounds cross).
pub proof fn lemma_enforce_bounds_u32(lower_bound: u32, num: u32, upper_bound: u32)
    ensures
        spec_enforce_bounds(lower_bound, num, upper_bound) == (if num > upper_bound {
            if upper_bound < lower_bound { lower_bound } else { upper_bound }
        } else if num < lower_bound {
            lower_bound
        } else {
            num
        }),
{
}

/// Law: with ordered bounds, the result lies between them and equals `num`
/// whenever `num` already does; enforcing the same bounds twice changes nothing.
pub proof fn enforce_bounds_within(lower_bound: u32, num: u32, upper_bound: u32)
    requires
        lower_bound <= upper_bound,
    ensures
        lower_bound <= spec_enforce_bounds(lower_bound, num, upper_bound) <= upper_bound,
        lower_bound <= num <= upper_bound ==> spec_enforce_bounds(lower_bound, num, upper_bound) == num,
        spec_enforce_bounds(lower_bound, spec_enforce_bounds(lower_bound, num, upper_bound), upper_bound)
            == spec_enforce_bounds(lower_bound, num, upper_bound),
{
}

/// `enforce_bounds` on `u16`, as a clamp.
pub proof fn lemma_enforce_bounds_u16(lower_bound: u16, num: u16, upper_bound: u16)
    ensures
        spec_enforce_bounds(lower_bound, num, upper_bound) == (if num > upper_bound {
            if upper_bound < lower_bound { lower_bound } else { upper_bound }
        } else if num < lower_bound {
            lower_bound
        } else {
            num
        }),
{
}

/// Whether the payload is powered. Enabling the heater (or driving any pin
/// connected to the payload) while the payload is unpowered can damage it, so
/// the valid states are (Off, HeaterOff) <-> (On, HeaterOff) <-> (On, HeaterOn).
#[derive(Clone, Copy, Debug, PartialEq, Eq, Structural)]
pub enum PayloadState {
    PayloadOn,
    PayloadOff,
}

/// Whether the heater step-down converter is enabled.
#[derive(Clone, Copy, Debug, PartialEq, Eq, Structural)]
pub enum HeaterState {
    HeaterOn,
    HeaterOff,
}

/// Position of a supply's output relay.
#[derive(Clone, Copy, Debug, PartialEq, Eq, Structural)]
pub enum SwitchState {
    Connected,
    Disconnected,
}

/// The payload control lines.
#[derive(Clone, Copy, Debug, PartialEq, Eq, Structural)]
pub enum ControlLine {
    PayloadEnable,
    HeaterEnable,
    CathodeSwitch,
    TetherSwitch,
}

/// A level to drive a control line to.
#[derive(Clone, Copy, Debug, PartialEq, Eq, Structural)]
pub struct PinWrite {
    pub line: ControlLine,
    pub high: bool,
}

/// A change of power state.
#[derive(Clone, Copy, Debug, PartialEq, Eq, Structural)]
pub enum PowerTransition {
    EnablePayload,
    EnableHeater,
    DisablePayload,
    DisableHeater,
}

/// The power state a transition leads to, or `None` where it is not allowed.
pub open spec fn spec_next_power(payload: PayloadState, heater: HeaterState, t: PowerTransition) -> Option<
    (PayloadState, HeaterState),
> {
    match t {
        PowerTransition::EnablePayload => if payload == PayloadState::PayloadOff && heater == HeaterState::HeaterOff {
            Some((PayloadState::PayloadOn, HeaterState::HeaterOff))
        } else {
            None
        },
        PowerTransition::EnableHeater => if payload == PayloadState::PayloadOn && heater == HeaterState::HeaterOff {
            Some((PayloadState::PayloadOn, HeaterState::HeaterOn))
        } else {
            None
        },
        PowerTransition::DisablePayload => if payload == PayloadState::PayloadOn && heater == HeaterState::HeaterOff {
            Some((PayloadState::PayloadOff, HeaterState::HeaterOff))
        } else {
            None
        },
        PowerTransition::DisableHeater => if payload == PayloadState::PayloadOn && heater == HeaterState::HeaterOn {
            Some((PayloadState::PayloadOn, HeaterState::HeaterOff))
        } else {
            None
        },
    }
}

/// The heater is only ever on while the payload is powered.
pub open spec fn spec_power_safe(payload: PayloadState, heater: HeaterState) -> bool {
    heater == HeaterState::HeaterOn ==> payload == PayloadState::PayloadOn
}

/// Law: every allowed transition from a safe power state leads to a safe one,
/// and each enable is undone by the matching disable.
pub proof fn power_transitions_safe(payload: PayloadState, heater: HeaterState, t: PowerTransition)
    requires
        spec_power_safe(payload, heater),
    ensures
        spec_next_power(payload, heater, t) matches Some((p, h)) ==> spec_power_safe(p, h),
        spec_next_power(payload, heater, PowerTransition::EnablePayload) matches Some((p, h))
            ==> spec_next_power(p, h, PowerTransition::DisablePayload) == Some((payload, heater)),
        spec_next_power(payload, heater, PowerTransition::EnableHeater) matches Some((p, h))
            ==> spec_next_power(p, h, PowerTransition::DisableHeater) == Some((payload, heater)),
{
}

/// The power state after applying `ts` in order from `(payload, heater)`,
/// or `None` once a transition is not allowed from the state reached.
pub open spec fn spec_power_after(payload: PayloadState, heater: HeaterState, ts: Seq<PowerTransition>) -> Option<
    (PayloadState, HeaterState),
>
    decreases ts.len(),
{
    if ts.len() == 0 {
        Some((payload, heater))
    } else {
        match spec_power_after(payload, heater, ts.drop_last()) {
            Some((p, h)) => spec_next_power(p, h, ts.last()),
            None => None,
        }
    }
}

/// Law: from the state a payload is built in (payload and heater off), every
/// state reachable by allowed transitions has the heater on only while the
/// payload is on.
pub proof fn heater_only_with_payload(ts: Seq<PowerTransition>)
    ensures
        spec_power_after(PayloadState::PayloadOff, HeaterState::HeaterOff, ts) matches Some((p, h))
            ==> spec_power_safe(p, h),
    decreases ts.len(),
{
    if ts.len() > 0 {
        heater_only_with_payload(ts.drop_last());
        match spec_power_after(PayloadState::PayloadOff, HeaterState::HeaterOff, ts.drop_last()) {
            Some((p, h)) => power_transitions_safe(p, h, ts.last()),
            None => {},
        }
    }
}

/// The control-line write each transition makes.
pub open spec fn spec_transition_write(t: PowerTransition) -> PinWrite {
    match t {
        PowerTransition::EnablePayload => PinWrite { line: ControlLine::PayloadEnable, high: true },
        PowerTransition::EnableHeater => PinWrite { line: ControlLine::HeaterEnable, high: true },
        PowerTransition::DisablePayload => PinWrite { line: ControlLine::PayloadEnable, high: false },
        PowerTransition::DisableHeater => PinWrite { line: ControlLine::HeaterEnable, high: false },
    }
}

/// Levels of the payload-enable and heater-enable lines after a write.
pub open spec fn spec_enable_levels_after(levels: (bool, bool), w: PinWrite) -> (bool, bool) {
    match w.line {
        ControlLine::PayloadEnable => (w.high, levels.1),
        ControlLine::HeaterEnable => (levels.0, w.high),
        _ => levels,
    }
}

/// Levels of the payload-enable and heater-enable lines after the writes of
/// a built payload (both low) and of the transitions `ts`, as long as each
/// is allowed from the state reached.
pub open spec fn spec_enable_levels(ts: Seq<PowerTransition>) -> (bool, bool)
    decreases ts.len(),
{
    if ts.len() == 0 {
        (false, false)
    } else {
        spec_enable_levels_after(spec_enable_levels(ts.drop_last()), spec_transition_write(ts.last()))
    }
}

/// Law: from a built payload, after any allowed sequence of transitions, the
/// payload-enable line is high exactly when the payload is on and the
/// heater-enable line exactly when the heater is on; so the heater-enable
/// line is high only while the payload-enable line is.
pub proof fn enable_lines_follow_power(ts: Seq<PowerTransition>)
    ensures
        spec_power_after(PayloadState::PayloadOff, HeaterState::HeaterOff, ts) matches Some((p, h)) ==> {
            &&& spec_enable_levels(ts).0 == (p == PayloadState::PayloadOn)
            &&& spec_enable_levels(ts).1 == (h == HeaterState::HeaterOn)
            &&& (spec_enable_levels(ts).1 ==> spec_enable_levels(ts).0)
        },
    decreases ts.len(),
{
    heater_only_with_payload(ts);
    if ts.len() > 0 {
        enable_lines_follow_power(ts.drop_last());
    }
}

/// Law: supply targets outside a supply's range are clamped to it, so a
/// target beyond an end sets the supply exactly as that end does.
pub proof fn supply_targets_clamped(heater_mv: u16, hvdc_mv: u32)
    ensures
        heater_mv >= 12000 ==> spec_heater_frame(heater_mv) == spec_heater_frame(12000),
        heater_mv <= 1400 ==> spec_heater_frame(heater_mv) == spec_heater_frame(1400),
        hvdc_mv >= 255000 ==> spec_tether_bias_frame(hvdc_mv) == spec_tether_bias_frame(255000),
        hvdc_mv >= 255000 ==> spec_cathode_offset_frame(hvdc_mv) == spec_cathode_offset_frame(255000),
{
}

/// Heater digipot frame for a target voltage: the target clamped to the
/// heater supply's range, converted to a resistance, then to a wiper count.
pub open spec fn spec_heater_frame(target_millivolts: u16) -> SpiFrame {
    let mv = if target_millivolts > 12000 {
        12000
    } else if target_millivolts < 1400 {
        1400
    } else {
        target_millivolts as int
    };
    spec_channel_frame(
        DigipotChannel::Channel1,
        spec_resistance_to_count(spec_heater_digipot_resistance(mv)) as u8,
    )
}

/// DAC frame that sets the tether bias supply to a target voltage (clamped to
/// 255 V).
pub open spec fn spec_tether_bias_frame(target_millivolts: u32) -> SpiFrame {
    let mv = if target_millivolts > 255000 { 255000 } else { target_millivolts as int };
    spec_command_frame(
        DACCommand::WriteToAndUpdateRegisterX,
        DACChannel::ChannelD,
        spec_voltage_to_count(mv / 51) as u16,
    )
}

/// DAC frame that sets the cathode offset supply to a target voltage (clamped
/// to 255 V).
pub open spec fn spec_cathode_offset_frame(target_millivolts: u32) -> SpiFrame {
    let mv = if target_millivolts > 255000 { 255000 } else { target_millivolts as int };
    spec_command_frame(
        DACCommand::WriteToAndUpdateRegisterX,
        DACChannel::ChannelC,
        spec_voltage_to_count((mv * 100) / 5138) as u16,
    )
}

/// The payload: its SPI peripherals and its power state. Control lines and
/// the SPI bus are driven by the caller with the pin writes and frames these
/// methods return.
pub struct Payload<P: PayloadPinTypes> {
    pub tether_adc: ADC<P::TetherAdcCs, TetherSensor>,
    pub temperature_adc: ADC<P::TemperatureAdcCs, TemperatureSensor>,
    pub misc_adc: ADC<P::MiscAdcCs, MiscSensor>,
    pub aperture_adc: ADC<P::ApertureAdcCs, MiscSensor>,
    pub dac: DAC<P::DacCs>,
    pub digipot: Digipot<P::DigipotCs>,
    payload_state: PayloadState,
    heater_state: HeaterState,
}

/// Makes a `Payload` from its peripherals.
pub struct PayloadBuilder {}

impl PayloadBuilder {
    /// Builds an unpowered payload. Returns it with the pin writes that turn
    /// the heater and the payload off.
    pub fn build<P: PayloadPinTypes>(periph: PayloadPeripherals<P>) -> (r: (Payload<P>, Vec<PinWrite>))
        ensures
            r.0.spec_payload_state() == PayloadState::PayloadOff,
            r.0.spec_heater_state() == HeaterState::HeaterOff,
            r.0.spec_peripherals() == periph,
            r.1@ == seq![
                PinWrite { line: ControlLine::HeaterEnable, high: false },
                PinWrite { line: ControlLine::PayloadEnable, high: false },
            ],
    {
        let mut writes: Vec<PinWrite> = Vec::new();
        writes.push(PinWrite { line: ControlLine::HeaterEnable, high: false });
        writes.push(PinWrite { line: ControlLine::PayloadEnable, high: false });
        let payload = Payload {
            tether_adc: periph.tether_adc,
            temperature_adc: periph.temperature_adc,
            misc_adc: periph.misc_adc,
            aperture_adc: periph.aperture_adc,
            dac: periph.dac,
            digipot: periph.digipot,
            payload_state: PayloadState::PayloadOff,
            heater_state: HeaterState::HeaterOff,
        };
        assert(writes@ =~= seq![
            PinWrite { line: ControlLine::HeaterEnable, high: false },
            PinWrite { line: ControlLine::PayloadEnable, high: false },
        ]);
        (payload, writes)
    }
}

impl<P: PayloadPinTypes> Payload<P> {
    pub closed spec fn spec_payload_state(&self) -> PayloadState {
        self.payload_state
    }

    pub closed spec fn spec_heater_state(&self) -> HeaterState {
        self.heater_state
    }

    /// Supply voltage of the tether ADC.
    pub closed spec fn tether_vcc(&self) -> u16 {
        self.tether_adc.vcc_millivolts
    }

    /// Supply voltage of the temperature ADC.
    pub closed spec fn temperature_vcc(&self) -> u16 {
        self.temperature_adc.vcc_millivolts
    }

    /// Supply voltage of the miscellaneous ADC.
    pub closed spec fn misc_vcc(&self) -> u16 {
        self.misc_adc.vcc_millivolts
    }

    /// Supply voltage of the aperture ADC.
    pub closed spec fn aperture_vcc(&self) -> u16 {
        self.aperture_adc.vcc_millivolts
    }

    /// The peripherals the payload holds.
    pub closed spec fn spec_peripherals(&self) -> PayloadPeripherals<P> {
        PayloadPeripherals {
            digipot: self.digipot,
            dac: self.dac,
            tether_adc: self.tether_adc,
            temperature_adc: self.temperature_adc,
            misc_adc: self.misc_adc,
            aperture_adc: self.aperture_adc,
        }
    }

    /// Consumes the payload and returns its peripherals.
    pub fn return_peripherals(self) -> (periph: PayloadPeripherals<P>)
        ensures
            periph == self.spec_peripherals(),
    {
        PayloadPeripherals {
            digipot: self.digipot,
            dac: self.dac,
            tether_adc: self.tether_adc,
            temperature_adc: self.temperature_adc,
            misc_adc: self.misc_adc,
            aperture_adc: self.aperture_adc,
        }
    }

    /// Current power state.
    pub fn power_state(&self) -> (r: (PayloadState, HeaterState))
        ensures
            r == (self.spec_payload_state(), self.spec_heater_state()),
    {
        (self.payload_state, self.heater_state)
    }

    fn with_power(self, payload_state: PayloadState, heater_state: HeaterState) -> (r: Self)
        ensures
            r.spec_payload_state() == payload_state,
            r.spec_heater_state() == heater_state,
            r.spec_peripherals() == self.spec_peripherals(),
    {
        Payload {
            tether_adc: self.tether_adc,
            temperature_adc: self.temperature_adc,
            misc_adc: self.misc_adc,
            aperture_adc: self.aperture_adc,
            dac: self.dac,
            digipot: self.digipot,
            payload_state,
            heater_state,
        }
    }

    /// Powers the payload. Returns the payload, the pin write, and the DAC
    /// frame that reselects the DAC's external reference after power-up.
    pub fn into_enabled_payload(self) -> (r: (Self, PinWrite, SpiFrame))
        requires
            self.spec_payload_state() == PayloadState::PayloadOff,
            self.spec_heater_state() == HeaterState::HeaterOff,
        ensures
            r.0.spec_peripherals() == self.spec_peripherals(),
            spec_next_power(self.spec_payload_state(), self.spec_heater_state(), PowerTransition::EnablePayload)
                == Some((r.0.spec_payload_state(), r.0.spec_heater_state())),
            r.1 == (PinWrite { line: ControlLine::PayloadEnable, high: true }),
            r.1 == spec_transition_write(PowerTransition::EnablePayload),
            r.2 == spec_command_frame(DACCommand::SelectExternalReference, DACChannel::ChannelA, 0),
    {
        let frame = self.dac.send_command(DACCommand::SelectExternalReference, DACChannel::ChannelA, 0x000);
        (
            self.with_power(PayloadState::PayloadOn, HeaterState::HeaterOff),
            PinWrite { line: ControlLine::PayloadEnable, high: true },
            frame,
        )
    }

    /// Enables the heater of a powered payload.
    pub fn into_enabled_heater(self) -> (r: (Self, PinWrite))
        requires
            self.spec_payload_state() == PayloadState::PayloadOn,
            self.spec_heater_state() == HeaterState::HeaterOff,
        ensures
            r.0.spec_peripherals() == self.spec_peripherals(),
            spec_next_power(self.spec_payload_state(), self.spec_heater_state(), PowerTransition::EnableHeater)
                == Some((r.0.spec_payload_state(), r.0.spec_heater_state())),
            r.1 == (PinWrite { line: ControlLine::HeaterEnable, high: true }),
            r.1 == spec_transition_write(PowerTransition::EnableHeater),
    {
        (self.with_power(PayloadState::PayloadOn, HeaterState::HeaterOn), PinWrite {
            line: ControlLine::HeaterEnable,
            high: true,
        })
    }

    /// Removes power from a payload whose heater is off.
    pub fn into_disabled_payload(self) -> (r: (Self, PinWrite))
        requires
            self.spec_payload_state() == PayloadState::PayloadOn,
            self.spec_heater_state() == HeaterState::HeaterOff,
        ensures
            r.0.spec_peripherals() == self.spec_peripherals(),
            spec_next_power(self.spec_payload_state(), self.spec_heater_state(), PowerTransition::DisablePayload)
                == Some((r.0.spec_payload_state(), r.0.spec_heater_state())),
            r.1 == (PinWrite { line: ControlLine::PayloadEnable, high: false }),
            r.1 == spec_transition_write(PowerTransition::DisablePayload),
    {
        (self.with_power(PayloadState::PayloadOff, HeaterState::HeaterOff), PinWrite {
            line: ControlLine::PayloadEnable,
            high: false,
        })
    }

    /// Disables the heater.
    pub fn into_disabled_heater(self) -> (r: (Self, PinWrite))
        requires
            self.spec_payload_state() == PayloadState::PayloadOn,
            self.spec_heater_state() == HeaterState::HeaterOn,
        ensures
            r.0.spec_peripherals() == self.spec_peripherals(),
            spec_next_power(self.spec_payload_state(), self.spec_heater_state(), PowerTransition::DisableHeater)
                == Some((r.0.spec_payload_state(), r.0.spec_heater_state())),
            r.1 == (PinWrite { line: ControlLine::HeaterEnable, high: false }),
            r.1 == spec_transition_write(PowerTransition::DisableHeater),
    {
        (self.with_power(PayloadState::PayloadOn, HeaterState::HeaterOff), PinWrite {
            line: ControlLine::HeaterEnable,
            high: false,
        })
    }

    /// The digipot frame that sets the heater supply to `target_millivolts`
    /// (clamped to 1400..=12000 mV). The heater voltage can be changed while
    /// the heater is disabled.
    pub fn set_heater_voltage(&self, target_millivolts: u16) -> (frame: SpiFrame)
        requires
            self.spec_payload_state() == PayloadState::PayloadOn,
        ensures
            frame == spec_heater_frame(target_millivolts),
    {
        let target = enforce_bounds(HEATER_MIN_VOLTAGE_MILLIVOLTS, target_millivolts, HEATER_MAX_VOLTAGE_MILLIVOLTS);
        proof {
            lemma_enforce_bounds_u16(HEATER_MIN_VOLTAGE_MILLIVOLTS, target_millivolts, HEATER_MAX_VOLTAGE_MILLIVOLTS);
        }
        let resistance = heater_target_voltage_to_digipot_resistance(target as u32);
        self.digipot.set_channel_to_resistance(HEATER_DIGIPOT_CHANNEL, resistance)
    }

    /// The DAC frame that sets the tether bias supply to `target_millivolts`
    /// (clamped to 0..=255_000 mV).
    pub fn set_tether_bias_voltage(&self, target_millivolts: u32) -> (frame: SpiFrame)
        requires
            self.spec_payload_state() == PayloadState::PayloadOn,
        ensures
            frame == spec_tether_bias_frame(target_millivolts),
    {
        let target = enforce_bounds(
            TETHER_BIAS_MIN_VOLTAGE_MILLIVOLTS,
            target_millivolts,
            TETHER_BIAS_MAX_VOLTAGE_MILLIVOLTS,
        );
        proof {
            lemma_enforce_bounds_u32(TETHER_BIAS_MIN_VOLTAGE_MILLIVOLTS, target_millivolts, TETHER_BIAS_MAX_VOLTAGE_MILLIVOLTS);
            crate::wrap::lemma_div_le_bound(target as int, 51, 5000);
        }
        let dac_voltage = tether_bias_target_voltage_to_dac_voltage(target);
        let count = self.dac.voltage_to_count(dac_voltage);
        self.dac.send_command(DACCommand::WriteToAndUpdateRegisterX, TETHER_BIAS_SUPPLY_CONTROL_CHANNEL, count)
    }

    /// The DAC frame that sets the cathode offset supply to
    /// `target_millivolts` (clamped to 0..=255_000 mV).
    pub fn set_cathode_offset_voltage(&self, target_millivolts: u32) -> (frame: SpiFrame)
        requires
            self.spec_payload_state() == PayloadState::PayloadOn,
        ensures
            frame == spec_cathode_offset_frame(target_millivolts),
    {
        let target = enforce_bounds(
            CATHODE_OFFSET_MIN_VOLTAGE_MILLIVOLTS,
            target_millivolts,
            CATHODE_OFFSET_MAX_VOLTAGE_MILLIVOLTS,
        );
        proof {
            lemma_enforce_bounds_u32(CATHODE_OFFSET_MIN_VOLTAGE_MILLIVOLTS, target_millivolts, CATHODE_OFFSET_MAX_VOLTAGE_MILLIVOLTS);
            crate::wrap::lemma_div_le_bound(target * 100, 5138, 5000);
        }
        let dac_voltage = cathode_offset_target_voltage_to_dac_voltage(target);
        let count = self.dac.voltage_to_count(dac_voltage);
        self.dac.send_command(DACCommand::WriteToAndUpdateRegisterX, CATHODE_OFFSET_SUPPLY_CONTROL_CHANNEL, count)
    }

    /// Millivolts that `adc` reads on `channel` from the word it answered.
    pub open spec fn spec_reading(channel: ADCChannel, reply: u32, vcc: u16) -> int {
        spec_count_to_voltage(spec_count_from_reply(channel, reply), vcc as int)
    }

    /// Temperature in kelvin from the temperature ADC's answer for
    /// `temp_sensor`, using the equation of the sensor's supply. The reading
    /// must lie in 1..=720 mV (see `payload_temperature_eq`).
    pub fn get_temperature_kelvin(&self, temp_sensor: &TemperatureSensor, reply: u32) -> (kelvin: u16)
        requires
            1 <= Self::spec_reading(temp_sensor.channel, reply, self.temperature_vcc()) <= 720,
        ensures
            kelvin == spec_temperature_kelvin(
                Self::spec_reading(temp_sensor.channel, reply, self.temperature_vcc()),
                if temp_sensor.vcc == VccType::LMS { 3300 } else { 5000 },
            ),
    {
        let adc_voltage = self.temperature_adc.read_voltage_from(temp_sensor, reply);
        match temp_sensor.vcc {
            VccType::LMS => lms_temperature_eq(adc_voltage),
            VccType::Payload => payload_temperature_eq(adc_voltage),
        }
    }

    /// Aperture current in microamps from the aperture ADC's answer. (The
    /// aperture ADC's chip select also powers it; it must be selected 5 ms
    /// before the reading.)
    pub fn get_aperture_current_microamps(&self, reply: u32) -> (ua: u16)
        ensures
            ua == spec_aperture_current(
                Self::spec_reading(APERTURE_CURRENT_CHANNEL, reply, self.aperture_vcc()),
            ),
    {
        let adc_voltage = self.aperture_adc.read_voltage_from(&misc_sensor(APERTURE_CURRENT_CHANNEL), reply);
        aperture_current_sensor_eq(adc_voltage)
    }

    /// Pinpuller current in milliamps from the miscellaneous ADC's answer.
    pub fn get_pinpuller_current_milliamps(&self, reply: u32) -> (ma: u16)
        ensures
            ma == Self::spec_reading(PINPULLER_CURRENT_CHANNEL, reply, self.misc_vcc()) * 1000 / 1804,
    {
        let adc_voltage = self.misc_adc.read_voltage_from(&misc_sensor(PINPULLER_CURRENT_CHANNEL), reply);
        pinpuller_current_sensor_eq(adc_voltage)
    }

    /// Voltage of length measurement receiver 1.
    pub fn get_lms_receiver_1_millivolts(&self, reply: u32) -> (mv: u16)
        ensures
            mv == Self::spec_reading(LMS_RECEIVER_1_CHANNEL, reply, self.misc_vcc()),
    {
        self.misc_adc.read_voltage_from(&misc_sensor(LMS_RECEIVER_1_CHANNEL), reply)
    }

    /// Voltage of length measurement receiver 2.
    pub fn get_lms_receiver_2_millivolts(&self, reply: u32) -> (mv: u16)
        ensures
            mv == Self::spec_reading(LMS_RECEIVER_2_CHANNEL, reply, self.misc_vcc()),
    {
        self.misc_adc.read_voltage_from(&misc_sensor(LMS_RECEIVER_2_CHANNEL), reply)
    }

    /// Voltage of length measurement receiver 3.
    pub fn get_lms_receiver_3_millivolts(&self, reply: u32) -> (mv: u16)
        ensures
            mv == Self::spec_reading(LMS_RECEIVER_3_CHANNEL, reply, self.misc_vcc()),
    {
        self.misc_adc.read_voltage_from(&misc_sensor(LMS_RECEIVER_3_CHANNEL), reply)
    }

    /// Heater output voltage in millivolts.
    pub fn get_heater_voltage_millivolts(&self, reply: u32) -> (mv: u16)
        requires
            self.spec_payload_state() == PayloadState::PayloadOn,
        ensures
            mv == spec_heater_voltage(Self::spec_reading(HEATER_VOLTAGE_CHANNEL, reply, self.tether_vcc())),
    {
        let adc_millivolts = self.tether_adc.read_voltage_from(&tether_sensor(HEATER_VOLTAGE_CHANNEL), reply);
        heater_voltage_eq(adc_millivolts)
    }

    /// Heater current in milliamps.
    pub fn get_heater_current_milliamps(&self, reply: u32) -> (ma: i16)
        requires
            self.spec_payload_state() == PayloadState::PayloadOn,
        ensures
            ma == spec_heater_current(Self::spec_reading(HEATER_CURRENT_CHANNEL, reply, self.tether_vcc())),
    {
        let adc_millivolts = self.tether_adc.read_voltage_from(&tether_sensor(HEATER_CURRENT_CHANNEL), reply);
        heater_current_eq(adc_millivolts)
    }

    /// Tether bias output voltage in millivolts.
    pub fn get_tether_bias_voltage_millivolts(&self, reply: u32) -> (mv: i32)
        requires
            self.spec_payload_state() == PayloadState::PayloadOn,
        ensures
            mv == Self::spec_reading(TETHER_BIAS_VOLTAGE_CHANNEL, reply, self.tether_vcc()) * 106 + 805,
    {
        let adc_voltage = self.tether_adc.read_voltage_from(&tether_sensor(TETHER_BIAS_VOLTAGE_CHANNEL), reply);
        tether_bias_voltage_eq(adc_voltage)
    }

    /// Tether bias output current in microamps. The reading must be at most
    /// 43_334 mV (see `tether_bias_current_eq`).
    pub fn get_tether_bias_current_microamps(&self, reply: u32) -> (ua: i32)
        requires
            self.spec_payload_state() == PayloadState::PayloadOn,
            Self::spec_reading(TETHER_BIAS_CURRENT_CHANNEL, reply, self.tether_vcc()) <= 43_334,
        ensures
            ua == trunc_div(
                (Self::spec_reading(TETHER_BIAS_CURRENT_CHANNEL, reply, self.tether_vcc()) - 1020) * 50_750,
                9804,
            ),
    {
        let adc_voltage = self.tether_adc.read_voltage_from(&tether_sensor(TETHER_BIAS_CURRENT_CHANNEL), reply);
        tether_bias_current_eq(adc_voltage)
    }

    /// Cathode offset output voltage in millivolts. The reading must be at
    /// most 24_837 mV (see `cathode_offset_voltage_eq`).
    pub fn get_cathode_offset_voltage_millivolts(&self, reply: u32) -> (mv: i32)
        requires
            self.spec_payload_state() == PayloadState::PayloadOn,
            Self::spec_reading(CATHODE_OFFSET_VOLTAGE_CHANNEL, reply, self.tether_vcc()) <= 24_837,
        ensures
            mv == trunc_div(
                Self::spec_reading(CATHODE_OFFSET_VOLTAGE_CHANNEL, reply, self.tether_vcc()) * -86_463,
                1000,
            ) + 301_437,
    {
        let adc_voltage = self.tether_adc.read_voltage_from(&tether_sensor(CATHODE_OFFSET_VOLTAGE_CHANNEL), reply);
        cathode_offset_voltage_eq(adc_voltage)
    }

    /// Cathode offset output current in microamps.
    pub fn get_cathode_offset_current_microamps(&self, reply: u32) -> (ua: i32)
        requires
            self.spec_payload_state() == PayloadState::PayloadOn,
        ensures
            ua == trunc_div(
                (Self::spec_reading(CATHODE_OFFSET_CURRENT_CHANNEL, reply, self.tether_vcc()) - 2463) * 780,
                500,
            ),
    {
        let adc_voltage = self.tether_adc.read_voltage_from(&tether_sensor(CATHODE_OFFSET_CURRENT_CHANNEL), reply);
        cathode_offset_current_eq(adc_voltage)
    }

    /// Repeller voltage in millivolts.
    pub fn get_repeller_voltage_millivolts(&self, reply: u32) -> (mv: i32)
        requires
            self.spec_payload_state() == PayloadState::PayloadOn,
        ensures
            mv == (Self::spec_reading(REPELLER_VOLTAGE_CHANNEL, reply, self.tether_vcc()) - 2755) * 102,
    {
        let adc_voltage = self.tether_adc.read_voltage_from(&tether_sensor(REPELLER_VOLTAGE_CHANNEL), reply);
        repeller_voltage_eq(adc_voltage)
    }

    /// The pin write that connects or disconnects the cathode offset supply.
    pub fn set_cathode_offset_switch(&self, state: SwitchState) -> (w: PinWrite)
        requires
            self.spec_payload_state() == PayloadState::PayloadOn,
        ensures
            w == (PinWrite { line: ControlLine::CathodeSwitch, high: state == SwitchState::Connected }),
    {
        match state {
            SwitchState::Connected => PinWrite { line: ControlLine::CathodeSwitch, high: true },
            SwitchState::Disconnected => PinWrite { line: ControlLine::CathodeSwitch, high: false },
        }
    }

    /// The pin write that connects or disconnects the tether bias supply.
    pub fn set_tether_bias_switch(&self, state: SwitchState) -> (w: PinWrite)
        requires
            self.spec_payload_state() == PayloadState::PayloadOn,
        ensures
            w == (PinWrite { line: ControlLine::TetherSwitch, high: state == SwitchState::Connected }),
    {
        match state {
            SwitchState::Connected => PinWrite { line: ControlLine::TetherSwitch, high: true },
            SwitchState::Disconnected => PinWrite { line: ControlLine::TetherSwitch, high: false },
        }
    }
}

} // verus!
