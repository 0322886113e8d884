use kessler_payload::pcb_mapping::power_supply_equations::{
    cathode_offset_target_voltage_to_dac_voltage, heater_target_voltage_to_digipot_resistance,
    tether_bias_target_voltage_to_dac_voltage,
};
use kessler_payload::pcb_mapping::sensor_equations::{
    aperture_current_sensor_eq, cathode_offset_current_eq, cathode_offset_voltage_eq, heater_current_eq,
    heater_voltage_eq, lms_temperature_eq, payload_temperature_eq, pinpuller_current_sensor_eq,
    repeller_voltage_eq, tether_bias_current_eq, tether_bias_voltage_eq,
};

#[test]
fn voltage_equations() {
    assert_eq!(heater_voltage_eq(1500), 5008);
    assert_eq!(repeller_voltage_eq(3000), 24990);
    assert_eq!(repeller_voltage_eq(0), -281010);
    assert_eq!(tether_bias_voltage_eq(1000), 106805);
    assert_eq!(cathode_offset_voltage_eq(1000), 214974);
    assert_eq!(cathode_offset_voltage_eq(0), 301437);
}

#[test]
fn current_equations() {
    assert_eq!(heater_current_eq(1000), 1848);
    assert_eq!(heater_current_eq(0), -66);
    // Negative quotients round toward zero.
    assert_eq!(tether_bias_current_eq(1000), -103);
    assert_eq!(tether_bias_current_eq(2000), 5072);
    assert_eq!(cathode_offset_current_eq(1000), -2282);
    assert_eq!(aperture_current_sensor_eq(1000), 14);
    // Above 4444 mV the quotient is negative and wraps in 16 bits.
    assert_eq!(aperture_current_sensor_eq(5000), 65534);
    assert_eq!(pinpuller_current_sensor_eq(1804), 1000);
    assert_eq!(pinpuller_current_sensor_eq(3000), 1662);
}

#[test]
fn temperature_equations() {
    assert_eq!(payload_temperature_eq(5), 278);
    assert_eq!(lms_temperature_eq(5), 196);
    assert_eq!(payload_temperature_eq(50), 33);
    assert_eq!(lms_temperature_eq(50), 22);
    assert_eq!(payload_temperature_eq(500), 3);
    assert_eq!(payload_temperature_eq(720), 2);
    assert_eq!(lms_temperature_eq(720), 1);
}

#[test]
fn supply_control_equations() {
    assert_eq!(heater_target_voltage_to_digipot_resistance(1400), 102966);
    assert_eq!(heater_target_voltage_to_digipot_resistance(3160), 25851);
    assert_eq!(heater_target_voltage_to_digipot_resistance(12000), 5428);
    // Below 810 mV the divisor is negative and the result saturates to zero.
    assert_eq!(heater_target_voltage_to_digipot_resistance(800), 0);
    assert_eq!(tether_bias_target_voltage_to_dac_voltage(255000), 5000);
    assert_eq!(cathode_offset_target_voltage_to_dac_voltage(255000), 4963);
    // The 16-bit result wraps.
    assert_eq!(tether_bias_target_voltage_to_dac_voltage(51 * 70000), 4464);
}
