use kessler_payload::payload::{PowerTransition, SwitchState};
use kessler_payload::testing::pinpuller_mock::expected_on_current;
use kessler_payload::testing::Performance;
use kessler_payload::tvac::{
    compare_cathode_offset, compare_heater, compare_hvdc_supply, compare_pinpuller_current, compare_tether_bias,
    kelvin_to_celcius, phase_seconds, self_test_power_down, self_test_power_up, transition_actions, TvacAction,
    TvacPhase, TvacSchedule, TvacSensing,
};

fn run_phase(s: &mut TvacSchedule) -> (u32, u32, TvacSensing) {
    let mut last = None;
    while !s.phase_complete() {
        last = Some(s.tick());
    }
    let t = last.unwrap();
    (t.phase_seconds, t.total_seconds, t.sensing)
}

#[test]
fn schedule_runs_phases_in_order_with_their_lengths() {
    let mut s = TvacSchedule::new();
    assert_eq!(s.phase(), TvacPhase::PayloadOff);
    assert_eq!(run_phase(&mut s), (2700, 2700, TvacSensing::PayloadOff));
    s.advance();
    assert_eq!(s.phase(), TvacPhase::PinpullerActivation);
    assert_eq!(run_phase(&mut s), (60, 2760, TvacSensing::Deployment));
    s.advance();
    assert_eq!(s.phase(), TvacPhase::Emission);
    assert_eq!(run_phase(&mut s), (2640, 5400, TvacSensing::Emission));
    s.advance();
    assert_eq!(s.phase(), TvacPhase::PayloadOff);
    let t = s.tick();
    assert_eq!((t.phase_seconds, t.total_seconds), (1, 5401));
}

#[test]
fn phase_lengths() {
    assert_eq!(phase_seconds(TvacPhase::PayloadOff), 45 * 60);
    assert_eq!(phase_seconds(TvacPhase::PinpullerActivation), 60);
    assert_eq!(phase_seconds(TvacPhase::Emission), 44 * 60);
}

#[test]
fn transition_actions_switch_power_with_the_phase() {
    assert_eq!(
        transition_actions(TvacPhase::PayloadOff),
        vec![
            TvacAction::BurnWire1(true),
            TvacAction::LmsLedEnable(true),
            TvacAction::LmsReceiverEnable(true),
            TvacAction::YellowLed(true),
        ]
    );
    let into_emission = transition_actions(TvacPhase::PinpullerActivation);
    assert_eq!(into_emission[3], TvacAction::Power(PowerTransition::EnablePayload));
    assert_eq!(into_emission[4], TvacAction::Power(PowerTransition::EnableHeater));
    assert_eq!(into_emission[5], TvacAction::CathodeOffsetSwitch(SwitchState::Connected));
    assert_eq!(into_emission[7], TvacAction::CathodeOffsetVoltage(255000));
    assert_eq!(into_emission[8], TvacAction::TetherBiasVoltage(255000));
    assert_eq!(into_emission[9], TvacAction::HeaterVoltage(3160));
    let out = transition_actions(TvacPhase::Emission);
    assert_eq!(out.len(), 6);
    assert_eq!(out[4], TvacAction::Power(PowerTransition::DisableHeater));
    assert_eq!(out[5], TvacAction::Power(PowerTransition::DisablePayload));
    assert_eq!(self_test_power_up().len(), 2);
    assert_eq!(self_test_power_down()[2], TvacAction::GreenLed(true));
}

#[test]
fn advance_returns_the_transition_of_the_finished_phase() {
    let mut s = TvacSchedule::new();
    run_phase(&mut s);
    assert_eq!(s.advance(), transition_actions(TvacPhase::PayloadOff));
}

#[test]
fn emission_comparisons() {
    assert_eq!(compare_hvdc_supply(250000, 255000), -42524428);
    let co = compare_cathode_offset(255000, 250000);
    assert_eq!(co.name, "Cathode offset voltage");
    assert_eq!(co.performance, Performance::Nominal);
    let tb = compare_tether_bias(255000, 0);
    assert_eq!(tb.name, "Tether bias voltage");
    assert_eq!(tb.accuracy, -(1i64 << 32));
    assert_eq!(tb.performance, Performance::NotWorking);
    let [v, i] = compare_heater(3160, 3160, 300);
    assert_eq!(v.name, "Heater voltage");
    assert_eq!(v.accuracy, 0);
    assert_eq!(i.name, "Heater current");
    assert_eq!(i.accuracy, -104755299);
    assert_eq!(i.performance, Performance::Nominal);
}

#[test]
fn pinpuller_comparison() {
    let r = compare_pinpuller_current(1700, expected_on_current().unwrap());
    assert_eq!(r.name, "Pinpuller current sense");
    assert_eq!(r.accuracy, 24136166);
}

#[test]
fn kelvin_to_celcius_values() {
    assert_eq!(kelvin_to_celcius(298), 25);
    assert_eq!(kelvin_to_celcius(0), -273);
    assert_eq!(kelvin_to_celcius(65535), -274);
}
