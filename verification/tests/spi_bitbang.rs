use kessler_payload::pcb_common::{ChipSelectLine, OBCSPIPins, PayloadSPIBitBangPins, PayloadSPIChipSelectPins};
use kessler_payload::spi::steps::{BusStep, OBCSPI};
use kessler_payload::spi::{
    assemble_word, idle_clock_level, shift_in, OBCSPIBitBang, PayloadSPIBitBang, PayloadSPIController, SckPhase, SckPolarity,
};

/// Runs bus steps with MISO wired to MOSI; returns the MOSI levels driven,
/// the samples taken and the number of clock toggles.
fn run_looped_back(steps: &[BusStep]) -> (Vec<bool>, Vec<bool>, usize) {
    let mut mosi = false;
    let mut driven = Vec::new();
    let mut samples = Vec::new();
    let mut toggles = 0;
    for step in steps {
        match *step {
            BusStep::Mosi(level) => {
                mosi = level;
                driven.push(level);
            },
            BusStep::SampleMiso => samples.push(mosi),
            BusStep::ToggleSck => toggles += 1,
            _ => {},
        }
    }
    (driven, samples, toggles)
}

fn bus(phase: SckPhase) -> PayloadSPIBitBang<u8, u8, u8> {
    PayloadSPIBitBang::new(PayloadSPIBitBangPins { miso: 1u8, mosi: 2u8, sck: 3u8 }, SckPolarity::IdleHigh, phase).0
}

#[test]
fn payload_frames_go_out_msb_first() {
    let steps = bus(SckPhase::SampleFirstEdge).send(4, 0b1011);
    let (driven, samples, toggles) = run_looped_back(&steps);
    assert_eq!(driven, vec![true, false, true, true]);
    assert!(samples.is_empty());
    assert_eq!(toggles, 8);
    assert_eq!(steps.first(), Some(&BusStep::Select));
    assert_eq!(steps.last(), Some(&BusStep::Deselect));
    assert_eq!(
        &steps[1..5],
        &[BusStep::Mosi(true), BusStep::ToggleSck, BusStep::Delay(80), BusStep::ToggleSck]
    );
    let dac = bus(SckPhase::SampleFirstEdge).send(24, 0x70_0000);
    assert_eq!(&run_looped_back(&dac).0[..4], &[false, true, true, true]);
}

#[test]
fn second_edge_peripherals_get_their_bit_between_the_edges() {
    let steps = bus(SckPhase::SampleSecondEdge).send(1, 1);
    assert_eq!(
        steps,
        vec![
            BusStep::Select,
            BusStep::ToggleSck,
            BusStep::Delay(80),
            BusStep::Mosi(true),
            BusStep::ToggleSck,
            BusStep::Deselect
        ]
    );
    let steps = bus(SckPhase::SampleSecondEdge).receive(1);
    assert_eq!(
        steps,
        vec![
            BusStep::Select,
            BusStep::ToggleSck,
            BusStep::SampleMiso,
            BusStep::ToggleSck,
            BusStep::Delay(80),
            BusStep::Deselect
        ]
    );
}

#[test]
fn receiving_samples_once_per_cycle() {
    for phase in [SckPhase::SampleFirstEdge, SckPhase::SampleSecondEdge] {
        let (_, samples, toggles) = run_looped_back(&bus(phase).receive(12));
        assert_eq!(samples.len(), 12);
        assert_eq!(toggles, 24);
        let (_, samples, _) = run_looped_back(&bus(phase).send_receive(20, 0xABCDE));
        assert_eq!(samples.len(), 20);
    }
}

#[test]
fn loopback_returns_the_frame() {
    for (len, data) in [(9u8, 0x141u32), (24, 0x33_FFF0), (32, 0xDEAD_BEEF), (16, 0xFFFF_1234)] {
        let steps = bus(SckPhase::SampleFirstEdge).send_receive(len, data);
        let (_, samples, _) = run_looped_back(&steps);
        let mask = if len == 32 { u32::MAX } else { (1u32 << len) - 1 };
        assert_eq!(assemble_word(&samples), data & mask);
    }
}

#[test]
fn obc_frames_go_out_msb_first() {
    let obc = OBCSPIBitBang::new(OBCSPIPins { miso: 1u8, mosi: 2u8, sck: 3u8, chip_select: 4u8, chip_select_interrupt: 5u8 });
    assert_eq!(run_looped_back(&OBCSPI::send(&obc, 4, 0b1111)).0, vec![true, true, true, true]);
    assert_eq!(run_looped_back(&OBCSPI::send(&obc, 3, 0b110)).0, vec![true, true, false]);
    let (driven, _, toggles) = run_looped_back(&OBCSPI::send(&obc, 3, 0b101));
    assert_eq!((driven, toggles), (vec![true, false, true], 6));
    let receive = OBCSPI::receive(&obc, 2);
    assert_eq!(
        receive,
        vec![
            BusStep::ToggleSck,
            BusStep::Delay(40),
            BusStep::SampleMiso,
            BusStep::ToggleSck,
            BusStep::ToggleSck,
            BusStep::Delay(40),
            BusStep::SampleMiso,
            BusStep::ToggleSck
        ]
    );
    let (_, samples, _) = run_looped_back(&OBCSPI::send_receive(&obc, 5, 0b10011));
    assert_eq!(samples, vec![true, false, false, true, true]);
    assert_eq!(assemble_word(&samples), 0b10011);
}

#[test]
fn shifting_and_idle_levels() {
    assert_eq!(shift_in(0b101, true), 0b1011);
    assert_eq!(shift_in(0x8000_0000, false), 0);
    assert!(idle_clock_level(SckPolarity::IdleHigh));
    assert!(!idle_clock_level(SckPolarity::IdleLow));
    assert_eq!(assemble_word(&vec![]), 0);
}

#[test]
fn buses_keep_their_pins() {
    let pins = PayloadSPIBitBangPins { miso: 1u8, mosi: 2u8, sck: 3u8 };
    let (bus, sck_high) = PayloadSPIBitBang::new(pins, SckPolarity::IdleHigh, SckPhase::SampleFirstEdge);
    assert!(sck_high);
    let (bus, sck_high) = bus.into(SckPolarity::IdleLow, SckPhase::SampleSecondEdge);
    assert!(!sck_high);
    assert_eq!(bus.phase, SckPhase::SampleSecondEdge);
    let back = bus.return_bit_bang_pins();
    assert_eq!((back.miso, back.mosi, back.sck), (1, 2, 3));
    let (bus, _) = PayloadSPIBitBang::new(back, SckPolarity::IdleLow, SckPhase::SampleFirstEdge);
    let peripheral = bus.return_pins();
    assert_eq!((peripheral.miso, peripheral.mosi, peripheral.sck), (1, 2, 3));

    let obc = OBCSPIBitBang::new(OBCSPIPins { miso: 1u8, mosi: 2u8, sck: 3u8, chip_select: 4u8, chip_select_interrupt: 5u8 });
    assert!(!obc.set_sck_idle_low());
    assert!(obc.set_sck_idle_high());
    let p = obc.return_pins();
    assert_eq!((p.miso, p.mosi, p.sck, p.chip_select, p.chip_select_interrupt), (1, 2, 3, 4, 5));
}

#[test]
fn disable_all_leaves_the_aperture_adc() {
    let (cs, deselect) = PayloadSPIChipSelectPins::new(1u8, 2u8, 3u8, 4u8, 5u8, 6u8);
    assert_eq!(
        deselect,
        vec![
            ChipSelectLine::Digipot,
            ChipSelectLine::Dac,
            ChipSelectLine::TetherAdc,
            ChipSelectLine::TemperatureAdc,
            ChipSelectLine::MiscAdc,
            ChipSelectLine::ApertureAdc
        ]
    );
    let lines = cs.disable_all();
    assert_eq!(lines.len(), 5);
    assert!(!lines.contains(&ChipSelectLine::ApertureAdc));
    assert_eq!(cs.aperture_test_adc, 6);
}

#[test]
fn controller_lends_the_bus_in_any_mode() {
    let (mut controller, sck_high) =
        PayloadSPIController::new(PayloadSPIBitBangPins { miso: 7u8, mosi: 8u8, sck: 9u8 });
    assert!(sck_high);
    {
        let bus = controller.borrow(SckPolarity::IdleLow, SckPhase::SampleSecondEdge);
        assert_eq!((bus.polarity, bus.phase), (SckPolarity::IdleLow, SckPhase::SampleSecondEdge));
        assert_eq!((bus.miso, bus.mosi, bus.sck), (7, 8, 9));
    }
    let (bus, sck_high) = controller.return_bus(SckPolarity::IdleHigh, SckPhase::SampleFirstEdge);
    assert!(sck_high);
    assert_eq!((bus.polarity, bus.phase), (SckPolarity::IdleHigh, SckPhase::SampleFirstEdge));
    let (controller, sck_high) = PayloadSPIController::new_from_bus(bus.into(SckPolarity::IdleLow, SckPhase::SampleSecondEdge).0);
    assert!(sck_high);
    let pins = controller.return_pins();
    assert_eq!((pins.miso, pins.mosi, pins.sck), (7, 8, 9));
}
