//! Thermal-vacuum (TVAC) test schedule.
//!
//! After a self test, the board cycles forever through three phases, one
//! timer second at a time: the payload stays off for 45 minutes, the
//! pinpuller and length measurement system are switched on for a minute, then
//! the payload emits for 44 minutes with both high-voltage supplies at their
//! maximum and the heater at 3.16 V. Every second the caller takes the
//! readings the phase asks for; at the end of a phase it performs, in order,
//! the board actions that lead into the next one.
use vstd::prelude::*;
use crate::payload::{PayloadState, HeaterState, SwitchState, PowerTransition, spec_next_power};
use crate::fixed_point::{abs_int, q32_one, q32_to_i32};
use crate::testing::{PerformanceResult, calculate_rpd, calculate_performance_result, spec_rpd,
    spec_performance, spec_heater_expected_current, heater_expected_current_ma, CELCIUS_TO_KELVIN_OFFSET};
use crate::testing::heater_mock::CIRCUIT_RESISTANCE_MOHMS;
use crate::wrap::{wrap_u16, wrap_i16, lemma_i32_as_i16};

verus! {

/// Seconds the payload stays off in each cycle (45 minutes).
pub const PAYLOAD_OFF_PHASE_SECONDS: u32 = 2700;

/// Seconds the pinpuller stays on in each cycle.
pub const PINPULLER_PHASE_SECONDS: u32 = 60;

/// Seconds of emission in each cycle (44 minutes).
pub const EMISSION_PHASE_SECONDS: u32 = 2640;

/// Heater voltage during emission, millivolts.
pub const EMISSION_HEATER_VOLTAGE_MILLIVOLTS: u16 = 3160;

/// A phase of the TVAC cycle.
#[derive(Clone, Copy, Debug, PartialEq, Eq, Structural)]
pub enum TvacPhase {
    PayloadOff,
    PinpullerActivation,
    Emission,
}

/// Length of a phase, in seconds.
pub open spec fn spec_phase_seconds(phase: TvacPhase) -> int {
    match phase {
        TvacPhase::PayloadOff => 2700,
        TvacPhase::PinpullerActivation => 60,
        TvacPhase::Emission => 2640,
    }
}

/// The phase that follows another.
pub open spec fn spec_next_phase(phase: TvacPhase) -> TvacPhase {
    match phase {
        TvacPhase::PayloadOff => TvacPhase::PinpullerActivation,
        TvacPhase::PinpullerActivation => TvacPhase::Emission,
        TvacPhase::Emission => TvacPhase::PayloadOff,
    }
}

/// Seconds of a cycle spent before a phase starts.
pub open spec fn spec_phase_offset(phase: TvacPhase) -> int {
    match phase {
        TvacPhase::PayloadOff => 0,
        TvacPhase::PinpullerActivation => 2700,
        TvacPhase::Emission => 2760,
    }
}

/// Length of a whole cycle, in seconds.
pub open spec fn spec_cycle_seconds() -> int {
    5400
}

/// Power state of the payload throughout a phase: on (heater too) during
/// emission, off otherwise.
pub open spec fn spec_phase_power(phase: TvacPhase) -> (PayloadState, HeaterState) {
    match phase {
        TvacPhase::Emission => (PayloadState::PayloadOn, HeaterState::HeaterOn),
        _ => (PayloadState::PayloadOff, HeaterState::HeaterOff),
    }
}

/// Readings taken each second of a phase.
#[derive(Clone, Copy, Debug, PartialEq, Eq, Structural)]
pub enum TvacSensing {
    /// Temperatures only.
    PayloadOff,
    /// Pinpuller current against its expected value, and temperatures.
    Deployment,
    /// Heater, cathode offset and tether bias against their set points, then
    /// aperture current, repeller voltage and temperatures.
    Emission,
}

/// An action on the board, performed by the caller.
#[derive(Clone, Copy, Debug, PartialEq, Eq, Structural)]
pub enum TvacAction {
    Power(PowerTransition),
    BurnWire1(bool),
    LmsLedEnable(bool),
    LmsReceiverEnable(bool),
    GreenLed(bool),
    YellowLed(bool),
    RedLed(bool),
    CathodeOffsetSwitch(SwitchState),
    TetherBiasSwitch(SwitchState),
    CathodeOffsetVoltage(u32),
    TetherBiasVoltage(u32),
    HeaterVoltage(u16),
}

/// Whether an action drives something connected to the payload, which must
/// then be powered.
pub open spec fn spec_needs_payload_power(a: TvacAction) -> bool {
    match a {
        TvacAction::CathodeOffsetSwitch(_) => true,
        TvacAction::TetherBiasSwitch(_) => true,
        TvacAction::CathodeOffsetVoltage(_) => true,
        TvacAction::TetherBiasVoltage(_) => true,
        TvacAction::HeaterVoltage(_) => true,
        _ => false,
    }
}

/// The power state after performing `actions` from `state`, or `None` where
/// one of them is a power transition that is not allowed, or drives the
/// payload while it is unpowered.
pub open spec fn spec_apply_actions(state: (PayloadState, HeaterState), actions: Seq<TvacAction>) -> Option<
    (PayloadState, HeaterState),
>
    decreases actions.len(),
{
    if actions.len() == 0 {
        Some(state)
    } else {
        let a = actions[0];
        let next = match a {
            TvacAction::Power(t) => spec_next_power(state.0, state.1, t),
            _ => if spec_needs_payload_power(a) && state.0 != PayloadState::PayloadOn {
                None
            } else {
                Some(state)
            },
        };
        match next {
            Some(s) => spec_apply_actions(s, actions.drop_first()),
            None => None,
        }
    }
}

/// Actions that close a phase and open the next one.
pub open spec fn spec_transition_actions(phase: TvacPhase) -> Seq<TvacAction> {
    match phase {
        TvacPhase::PayloadOff => seq![
            TvacAction::BurnWire1(true),
            TvacAction::LmsLedEnable(true),
            TvacAction::LmsReceiverEnable(true),
            TvacAction::YellowLed(true),
        ],
        TvacPhase::PinpullerActivation => seq![
            TvacAction::BurnWire1(false),
            TvacAction::LmsLedEnable(false),
            TvacAction::LmsReceiverEnable(false),
            TvacAction::Power(PowerTransition::EnablePayload),
            TvacAction::Power(PowerTransition::EnableHeater),
            TvacAction::CathodeOffsetSwitch(SwitchState::Connected),
            TvacAction::TetherBiasSwitch(SwitchState::Connected),
            TvacAction::CathodeOffsetVoltage(255000),
            TvacAction::TetherBiasVoltage(255000),
            TvacAction::HeaterVoltage(3160),
            TvacAction::RedLed(true),
        ],
        TvacPhase::Emission => seq![
            TvacAction::CathodeOffsetSwitch(SwitchState::Disconnected),
            TvacAction::TetherBiasSwitch(SwitchState::Disconnected),
            TvacAction::YellowLed(false),
            TvacAction::RedLed(false),
            TvacAction::Power(PowerTransition::DisableHeater),
            TvacAction::Power(PowerTransition::DisablePayload),
        ],
    }
}

/// Actions before the self test that opens the TVAC run: power up.
pub open spec fn spec_self_test_power_up() -> Seq<TvacAction> {
    seq![TvacAction::Power(PowerTransition::EnablePayload), TvacAction::Power(PowerTransition::EnableHeater)]
}

/// Actions after the self test, before the first phase: power down and light
/// the green LED.
pub open spec fn spec_self_test_power_down() -> Seq<TvacAction> {
    seq![
        TvacAction::Power(PowerTransition::DisableHeater),
        TvacAction::Power(PowerTransition::DisablePayload),
        TvacAction::GreenLed(true),
    ]
}

/// What one second of a phase asks for.
#[derive(Clone, Copy, Debug, PartialEq, Eq, Structural)]
pub struct TvacTick {
    /// Seconds elapsed in the current phase, this one included.
    pub phase_seconds: u32,
    /// Seconds elapsed in the whole test, this one included.
    pub total_seconds: u32,
    /// Readings to take.
    pub sensing: TvacSensing,
}

/// Readings a phase asks for.
pub open spec fn spec_phase_sensing(phase: TvacPhase) -> TvacSensing {
    match phase {
        TvacPhase::PayloadOff => TvacSensing::PayloadOff,
        TvacPhase::PinpullerActivation => TvacSensing::Deployment,
        TvacPhase::Emission => TvacSensing::Emission,
    }
}

/// Position in the TVAC schedule. `cycles` counts the cycles completed.
pub struct TvacSchedule {
    phase: TvacPhase,
    sec_elapsed_phase: u32,
    sec_elapsed_total: u32,
    cycles: Ghost<nat>,
}

impl TvacSchedule {
    /// The current phase.
    pub closed spec fn spec_phase(&self) -> TvacPhase {
        self.phase
    }

    /// Seconds elapsed in the current phase.
    pub closed spec fn spec_phase_elapsed(&self) -> int {
        self.sec_elapsed_phase as int
    }

    /// Seconds elapsed since the schedule started.
    pub closed spec fn spec_total_elapsed(&self) -> int {
        self.sec_elapsed_total as int
    }

    /// Whole cycles completed.
    pub closed spec fn spec_cycles(&self) -> nat {
        self.cycles@
    }

    /// A phase never runs past its length, and the total is the time of the
    /// completed cycles, plus the phases before the current one in this
    /// cycle, plus the current phase's time.
    pub open spec fn wf(&self) -> bool {
        &&& 0 <= self.spec_phase_elapsed() <= spec_phase_seconds(self.spec_phase())
        &&& self.spec_total_elapsed() == spec_cycle_seconds() * self.spec_cycles() + spec_phase_offset(
            self.spec_phase(),
        ) + self.spec_phase_elapsed()
    }

    /// The schedule at the start of the first payload-off phase.
    pub fn new() -> (s: TvacSchedule)
        ensures
            s.wf(),
            s.spec_phase() == TvacPhase::PayloadOff,
            s.spec_phase_elapsed() == 0,
            s.spec_total_elapsed() == 0,
            s.spec_cycles() == 0,
    {
        TvacSchedule { phase: TvacPhase::PayloadOff, sec_elapsed_phase: 0, sec_elapsed_total: 0, cycles: Ghost(0) }
    }

    /// The current phase.
    pub fn phase(&self) -> (p: TvacPhase)
        ensures
            p == self.spec_phase(),
    {
        self.phase
    }

    /// Whether the current phase has run its full length.
    pub fn phase_complete(&self) -> (done: bool)
        requires
            self.wf(),
        ensures
            done == (self.spec_phase_elapsed() == spec_phase_seconds(self.spec_phase())),
    {
        self.sec_elapsed_phase == phase_seconds(self.phase)
    }

    /// Counts one timer second of the current phase and says which readings
    /// to take. The phase must not be complete, and the total must not have
    /// reached the largest `u32`.
    pub fn tick(&mut self) -> (t: TvacTick)
        requires
            old(self).wf(),
            old(self).spec_phase_elapsed() < spec_phase_seconds(old(self).spec_phase()),
            old(self).spec_total_elapsed() < u32::MAX,
        ensures
            final(self).wf(),
            final(self).spec_phase() == old(self).spec_phase(),
            final(self).spec_cycles() == old(self).spec_cycles(),
            final(self).spec_phase_elapsed() == old(self).spec_phase_elapsed() + 1,
            final(self).spec_total_elapsed() == old(self).spec_total_elapsed() + 1,
            t.phase_seconds == final(self).spec_phase_elapsed(),
            t.total_seconds == final(self).spec_total_elapsed(),
            t.sensing == spec_phase_sensing(old(self).spec_phase()),
    {
        self.sec_elapsed_phase = self.sec_elapsed_phase + 1;
        self.sec_elapsed_total = self.sec_elapsed_total + 1;
        let sensing = match self.phase {
            TvacPhase::PayloadOff => TvacSensing::PayloadOff,
            TvacPhase::PinpullerActivation => TvacSensing::Deployment,
            TvacPhase::Emission => TvacSensing::Emission,
        };
        TvacTick { phase_seconds: self.sec_elapsed_phase, total_seconds: self.sec_elapsed_total, sensing }
    }

    /// Moves from a completed phase to the next one, and returns the actions
    /// that close the old phase and open the new one, in order.
    pub fn advance(&mut self) -> (actions: Vec<TvacAction>)
        requires
            old(self).wf(),
            old(self).spec_phase_elapsed() == spec_phase_seconds(old(self).spec_phase()),
        ensures
            final(self).wf(),
            final(self).spec_phase() == spec_next_phase(old(self).spec_phase()),
            final(self).spec_phase_elapsed() == 0,
            final(self).spec_total_elapsed() == old(self).spec_total_elapsed(),
            final(self).spec_cycles() == old(self).spec_cycles() + (if old(self).spec_phase()
                == TvacPhase::Emission {
                1nat
            } else {
                0nat
            }),
            actions@ == spec_transition_actions(old(self).spec_phase()),
    {
        let actions = transition_actions(self.phase);
        let next = match self.phase {
            TvacPhase::PayloadOff => TvacPhase::PinpullerActivation,
            TvacPhase::PinpullerActivation => TvacPhase::Emission,
            TvacPhase::Emission => TvacPhase::PayloadOff,
        };
        if self.phase == TvacPhase::Emission {
            self.cycles = Ghost((self.cycles@ + 1) as nat);
        }
        self.phase = next;
        self.sec_elapsed_phase = 0;
        actions
    }
}

/// Length of a phase, in seconds.
pub fn phase_seconds(phase: TvacPhase) -> (s: u32)
    ensures
        s == spec_phase_seconds(phase),
{
    match phase {
        TvacPhase::PayloadOff => PAYLOAD_OFF_PHASE_SECONDS,
        TvacPhase::PinpullerActivation => PINPULLER_PHASE_SECONDS,
        TvacPhase::Emission => EMISSION_PHASE_SECONDS,
    }
}

/// Actions that close a phase and open the next one.
pub fn transition_actions(phase: TvacPhase) -> (actions: Vec<TvacAction>)
    ensures
        actions@ == spec_transition_actions(phase),
{
    match phase {
        TvacPhase::PayloadOff => vec![
            TvacAction::BurnWire1(true),
            TvacAction::LmsLedEnable(true),
            TvacAction::LmsReceiverEnable(true),
            TvacAction::YellowLed(true),
        ],
        TvacPhase::PinpullerActivation => vec![
            TvacAction::BurnWire1(false),
            TvacAction::LmsLedEnable(false),
            TvacAction::LmsReceiverEnable(false),
            TvacAction::Power(PowerTransition::EnablePayload),
            TvacAction::Power(PowerTransition::EnableHeater),
            TvacAction::CathodeOffsetSwitch(SwitchState::Connected),
            TvacAction::TetherBiasSwitch(SwitchState::Connected),
            TvacAction::CathodeOffsetVoltage(
                crate::pcb_mapping::power_supply_limits::CATHODE_OFFSET_MAX_VOLTAGE_MILLIVOLTS,
            ),
            TvacAction::TetherBiasVoltage(crate::pcb_mapping::power_supply_limits::TETHER_BIAS_MAX_VOLTAGE_MILLIVOLTS),
            TvacAction::HeaterVoltage(EMISSION_HEATER_VOLTAGE_MILLIVOLTS),
            TvacAction::RedLed(true),
        ],
        TvacPhase::Emission => vec![
            TvacAction::CathodeOffsetSwitch(SwitchState::Disconnected),
            TvacAction::TetherBiasSwitch(SwitchState::Disconnected),
            TvacAction::YellowLed(false),
            TvacAction::RedLed(false),
            TvacAction::Power(PowerTransition::DisableHeater),
            TvacAction::Power(PowerTransition::DisablePayload),
        ],
    }
}

/// Actions before the opening self test.
pub fn self_test_power_up() -> (actions: Vec<TvacAction>)
    ensures
        actions@ == spec_self_test_power_up(),
{
    vec![TvacAction::Power(PowerTransition::EnablePayload), TvacAction::Power(PowerTransition::EnableHeater)]
}

/// Actions after the opening self test, before the first phase.
pub fn self_test_power_down() -> (actions: Vec<TvacAction>)
    ensures
        actions@ == spec_self_test_power_down(),
{
    vec![
        TvacAction::Power(PowerTransition::DisableHeater),
        TvacAction::Power(PowerTransition::DisablePayload),
        TvacAction::GreenLed(true),
    ]
}

/// Law: the phases run in the order payload-off, pinpuller, emission and
/// back, and the actions between two phases take the payload from the power
/// state of the first to that of the second through allowed transitions,
/// never driving it while unpowered. The self test is opened by powering up
/// from off and closed by powering down again.
pub proof fn tvac_power_follows_phases(phase: TvacPhase)
    ensures
        spec_next_phase(spec_next_phase(spec_next_phase(phase))) == phase,
        spec_apply_actions(spec_phase_power(phase), spec_transition_actions(phase)) == Some(
            spec_phase_power(spec_next_phase(phase)),
        ),
        spec_apply_actions((PayloadState::PayloadOff, HeaterState::HeaterOff), spec_self_test_power_up())
            == Some((PayloadState::PayloadOn, HeaterState::HeaterOn)),
        spec_apply_actions((PayloadState::PayloadOn, HeaterState::HeaterOn), spec_self_test_power_down())
            == Some((PayloadState::PayloadOff, HeaterState::HeaterOff)),
{
    reveal_with_fuel(spec_apply_actions, 12);
}

/// Law: the phase lengths add up to the cycle, and after a completed phase
/// the time elapsed is the offset of the next phase (or a whole cycle more).
pub proof fn tvac_cycle_length(phase: TvacPhase)
    ensures
        spec_phase_offset(phase) + spec_phase_seconds(phase) == (if phase == TvacPhase::Emission {
            spec_cycle_seconds()
        } else {
            spec_phase_offset(spec_next_phase(phase))
        }),
        spec_phase_seconds(TvacPhase::PayloadOff) + spec_phase_seconds(TvacPhase::PinpullerActivation)
            + spec_phase_seconds(TvacPhase::Emission) == spec_cycle_seconds(),
{
}

/// Accuracy (RPD, `Q32` bits) of a high-voltage supply's measured voltage
/// against the voltage it was set to. (The current is read and reported, but
/// not compared.)
pub fn compare_hvdc_supply(measured_voltage_mv: i32, expected_voltage_mv: u32) -> (rpd: i64)
    requires
        abs_int(measured_voltage_mv as int) + abs_int((expected_voltage_mv as i32) as int) <= i32::MAX,
    ensures
        rpd == spec_rpd(measured_voltage_mv as int, (expected_voltage_mv as i32) as int),
{
    let expected: i32 = expected_voltage_mv as i32;
    calculate_rpd(measured_voltage_mv, expected)
}

/// Cathode offset voltage against its set point, nominal within 5% and
/// inaccurate within 20%.
pub fn compare_cathode_offset(expected_voltage_mv: u32, measured_voltage_mv: i32) -> (r: PerformanceResult<'static>)
    requires
        abs_int(measured_voltage_mv as int) + abs_int((expected_voltage_mv as i32) as int) <= i32::MAX,
    ensures
        r.name@ == "Cathode offset voltage"@,
        r.accuracy == spec_rpd(measured_voltage_mv as int, (expected_voltage_mv as i32) as int),
        r.performance == spec_performance(r.accuracy as int, 5, 20),
{
    let accuracy = compare_hvdc_supply(measured_voltage_mv, expected_voltage_mv);
    proof {
        crate::testing::rpd_bounded_antisymmetric(measured_voltage_mv as int, (expected_voltage_mv as i32) as int);
    }
    calculate_performance_result("Cathode offset voltage", accuracy, 5, 20)
}

/// Tether bias voltage against its set point, nominal within 5% and
/// inaccurate within 20%.
pub fn compare_tether_bias(expected_voltage_mv: u32, measured_voltage_mv: i32) -> (r: PerformanceResult<'static>)
    requires
        abs_int(measured_voltage_mv as int) + abs_int((expected_voltage_mv as i32) as int) <= i32::MAX,
    ensures
        r.name@ == "Tether bias voltage"@,
        r.accuracy == spec_rpd(measured_voltage_mv as int, (expected_voltage_mv as i32) as int),
        r.performance == spec_performance(r.accuracy as int, 5, 20),
{
    let accuracy = compare_hvdc_supply(measured_voltage_mv, expected_voltage_mv);
    proof {
        crate::testing::rpd_bounded_antisymmetric(measured_voltage_mv as int, (expected_voltage_mv as i32) as int);
    }
    calculate_performance_result("Tether bias voltage", accuracy, 5, 20)
}

/// Heater voltage and current against the set voltage (kept to 16 bits) and
/// the current the mock load draws at it.
pub fn compare_heater(expected_voltage_mv: u32, heater_voltage_mv: u16, heater_current_ma: i16) -> (r: [PerformanceResult<
    'static,
>; 2])
    ensures
        r[0].name@ == "Heater voltage"@,
        r[0].accuracy == spec_rpd(heater_voltage_mv as int, wrap_u16(expected_voltage_mv as int)),
        r[0].performance == spec_performance(r[0].accuracy as int, 5, 20),
        r[1].name@ == "Heater current"@,
        r[1].accuracy == spec_rpd(
            heater_current_ma as int,
            spec_heater_expected_current(wrap_u16(expected_voltage_mv as int), 10010),
        ),
        r[1].performance == spec_performance(r[1].accuracy as int, 5, 20),
{
    let expected_voltage: u16 = expected_voltage_mv as u16;
    proof {
        crate::wrap::lemma_u32_as_u16(expected_voltage_mv);
        crate::testing::heater_mock::lemma_power_limited_max_current_value();
    }
    let expected_current_ma = heater_expected_current_ma(expected_voltage, CIRCUIT_RESISTANCE_MOHMS);
    let voltage_rpd = calculate_rpd(heater_voltage_mv as i32, expected_voltage as i32);
    let current_rpd = calculate_rpd(heater_current_ma as i32, expected_current_ma as i32);
    proof {
        crate::testing::rpd_bounded_antisymmetric(heater_voltage_mv as int, expected_voltage as int);
        crate::testing::rpd_bounded_antisymmetric(heater_current_ma as int, expected_current_ma as int);
    }
    let voltage_result = calculate_performance_result("Heater voltage", voltage_rpd, 5, 20);
    let current_result = calculate_performance_result("Heater current", current_rpd, 5, 20);
    [voltage_result, current_result]
}

/// Pinpuller current against the expected on-current (`Q32` bits of
/// milliamps, its fraction dropped).
pub fn compare_pinpuller_current(measured_current_ma: u16, expected_on_current: i64) -> (r: PerformanceResult<
    'static,
>)
    requires
        0 <= (expected_on_current as int) / q32_one() <= 1000000,
    ensures
        r.name@ == "Pinpuller current sense"@,
        r.accuracy == spec_rpd(measured_current_ma as int, (expected_on_current as int) / q32_one()),
        r.performance == spec_performance(r.accuracy as int, 5, 20),
{
    let expected: i32 = q32_to_i32(expected_on_current);
    let accuracy = calculate_rpd(measured_current_ma as i32, expected);
    proof {
        crate::testing::rpd_bounded_antisymmetric(measured_current_ma as int, expected as int);
    }
    calculate_performance_result("Pinpuller current sense", accuracy, 5, 20)
}

/// A temperature in kelvin, as printed in Celsius: the reading taken as an
/// `i16`, less 273.
pub fn kelvin_to_celcius(kelvin: u16) -> (celcius: i16)
    requires
        wrap_i16(kelvin as int) >= i16::MIN + 273,
    ensures
        celcius == wrap_i16(kelvin as int) - 273,
{
    proof {
        lemma_i32_as_i16(kelvin as i32);
    }
    let k: i16 = kelvin as i16;
    assert(k == (kelvin as i32) as i16) by (bit_vector)
        requires
            k == kelvin as i16,
    ;
    k - (CELCIUS_TO_KELVIN_OFFSET as i16)
}

} // verus!
