use kessler_payload::hal::eusci::{SpiRegisterWrite, UcsselSpi};
use kessler_payload::hal::eusci_utils::{BitCount, BitOrder, Loopback};
use kessler_payload::hal::spi::{Phase, Polarity, SpiBus, SpiConfig, SpiUsci};
use kessler_payload::spi_peripheral::{
    read_word, transfer_bytes, PayloadSPIController, PayloadSPIPeripheral, PeripheralStep,
};

struct PayloadUsci;

impl SpiUsci for PayloadUsci {
    type SckPin = u8;
    type MosiPin = u8;
    type MisoPin = u8;
}

fn hardware_bus() -> SpiBus<PayloadUsci> {
    SpiConfig::new(
        PayloadUsci,
        Polarity::IdleHigh,
        Phase::CaptureOnFirstEdge,
        BitOrder::MsbFirst,
        BitCount::EightBits,
        Loopback::NoLoop,
        250_000,
    )
    .use_smclk(1_000_000)
    .apply_config(11, 12, 13)
    .0
}

#[test]
fn transactions_move_the_low_bytes() {
    assert_eq!(transfer_bytes(32, 0x1234_5678), Some(vec![0x12, 0x34, 0x56, 0x78]));
    assert_eq!(transfer_bytes(16, 0x1234_5678), Some(vec![0x56, 0x78]));
    assert_eq!(transfer_bytes(16, 0x0000_ABCD), Some(vec![0xAB, 0xCD]));
    assert_eq!(transfer_bytes(24, 0x1234_5678), Some(vec![0x34, 0x56, 0x78]));
    assert_eq!(transfer_bytes(12, 0x0000_0ABC), Some(vec![0xBC]));
    assert_eq!(transfer_bytes(7, 0xFFFF_FFFF), Some(vec![]));
    assert_eq!(transfer_bytes(0, 1), None);
    assert_eq!(transfer_bytes(33, 1), None);
}

#[test]
fn words_are_read_back_most_significant_byte_first() {
    assert_eq!(read_word(32, &vec![0xDE, 0xAD, 0xBE, 0xEF]), 0xDEAD_BEEF);
    assert_eq!(read_word(24, &vec![0x01, 0x02, 0x03]), 0x01_0203);
    assert_eq!(read_word(16, &vec![0x80, 0x01]), 0x8001);
    assert_eq!(read_word(12, &vec![0x80]), 0x8000);
    assert_eq!(read_word(8, &vec![0x5A]), 0x5A);
    assert_eq!(read_word(5, &vec![]), 0);
    assert_eq!(read_word(0, &vec![0xFF]), 0);
    assert_eq!(read_word(40, &vec![0xFF]), 0);
}

#[test]
fn looped_back_transactions_read_the_low_bits() {
    for (len, data) in [(8u8, 0x1234_5678u32), (16, 0x1234_5678), (24, 0xFEDC_BA98), (32, 0xFEDC_BA98)] {
        let sent = transfer_bytes(len, data).expect("valid length");
        assert_eq!(read_word(len, &sent) as u64, (data as u64) % (1u64 << len));
    }
}

#[test]
fn peripheral_bus_modes() {
    let bus = PayloadSPIPeripheral::new(hardware_bus(), Polarity::IdleHigh, Phase::CaptureOnFirstEdge);
    let t = bus.send_receive(16, 0x0000_ABCD);
    assert_eq!(
        t.steps,
        vec![
            PeripheralStep::Select,
            PeripheralStep::Exchange(0xAB),
            PeripheralStep::Exchange(0xCD),
            PeripheralStep::WaitIdle,
            PeripheralStep::Deselect
        ]
    );
    // The device shifts back 0x12, 0x34 in place of the bytes sent.
    assert_eq!(t.word(&vec![0x12, 0x34]), 0x1234);
    assert_eq!(bus.send(8, 0x0100_0002).steps[1], PeripheralStep::Exchange(0x02));
    assert_eq!(bus.receive(24).steps.len(), 6);
    let none = bus.send_receive(0, 5);
    assert!(none.steps.is_empty());
    assert_eq!(none.word(&vec![]), 0);
    let (bus, writes) = bus.into(Polarity::IdleLow, Phase::CaptureOnSecondEdge, UcsselSpi::Smclk);
    assert_eq!((bus.polarity, bus.phase), (Polarity::IdleLow, Phase::CaptureOnSecondEdge));
    assert_eq!(writes.len(), 2);
    assert_eq!(writes[0], SpiRegisterWrite::Ctl0Reset);
    match writes[1] {
        SpiRegisterWrite::Ctl0Settings(reg) => {
            assert!(!reg.ucckph && !reg.ucckpl && reg.ucmsb && !reg.uc7bit && reg.ucmst);
            assert_eq!(reg.ucssel, UcsselSpi::Smclk);
        },
        _ => panic!("expected control settings"),
    }
    let pins = bus.return_pins();
    assert_eq!((pins.sck, pins.mosi, pins.miso), (11, 12, 13));
}

#[test]
fn peripheral_controller_lends_the_bus() {
    let mut controller = PayloadSPIController::new(hardware_bus());
    assert_eq!(controller.spi_bus.polarity, Polarity::IdleHigh);
    let writes = controller.borrow(Polarity::IdleLow, Phase::CaptureOnFirstEdge, UcsselSpi::Aclk);
    assert_eq!(writes.len(), 2);
    assert_eq!((controller.spi_bus.polarity, controller.spi_bus.phase), (Polarity::IdleLow, Phase::CaptureOnFirstEdge));
    let (bus, _) = controller.return_bus(Polarity::IdleLow, Phase::CaptureOnSecondEdge, UcsselSpi::Aclk);
    assert_eq!(bus.phase, Phase::CaptureOnSecondEdge);
    let (controller, writes) = PayloadSPIController::new_from_bus(bus, UcsselSpi::Smclk);
    assert_eq!((controller.spi_bus.polarity, controller.spi_bus.phase), (Polarity::IdleHigh, Phase::CaptureOnFirstEdge));
    match writes[1] {
        SpiRegisterWrite::Ctl0Settings(reg) => assert!(reg.ucckph && reg.ucckpl),
        _ => panic!("expected control settings"),
    }
    let pins = controller.return_pins();
    assert_eq!((pins.sck, pins.mosi, pins.miso), (11, 12, 13));
}
