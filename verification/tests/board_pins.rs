use kessler_payload::board::{collect_pins, delay_iterations, snake_leds, LedColour, PinFunction, PinMode};
use std::collections::HashSet;

#[test]
fn pin_map_has_no_shared_pins() {
    let map = collect_pins();
    assert_eq!(map.len(), 27);
    let pins: HashSet<(u8, u8)> = map.iter().map(|a| (a.port, a.pin)).collect();
    assert_eq!(pins.len(), map.len());
    let miso = map.iter().find(|a| a.function == PinFunction::PayloadSpiMiso).unwrap();
    assert_eq!((miso.port, miso.pin, miso.mode), (4, 7, PinMode::InputPullup));
    let tx = map.iter().find(|a| a.function == PinFunction::DebugSerialTx).unwrap();
    assert_eq!((tx.port, tx.pin, tx.mode), (4, 3, PinMode::Alternate1));
}

#[test]
fn snake_leds_cycle() {
    let mut n: u8 = 0;
    assert_eq!(snake_leds(&mut n), Some(LedColour::Green));
    assert_eq!(snake_leds(&mut n), Some(LedColour::Yellow));
    assert_eq!(snake_leds(&mut n), Some(LedColour::Red));
    assert_eq!(snake_leds(&mut n), None);
    assert_eq!(n, 0);
    let mut big: u8 = 254;
    assert_eq!(snake_leds(&mut big), Some(LedColour::Red));
    assert_eq!(big, 3);
}

#[test]
fn delay_iteration_counts() {
    assert_eq!(delay_iterations(1_000_000), 46875);
    assert_eq!(delay_iterations(100), 4);
    assert_eq!(delay_iterations(0), 0);
}
