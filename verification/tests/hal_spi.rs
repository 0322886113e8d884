use kessler_payload::hal::eusci::{SpiRegisterWrite, UcsselSpi};
use kessler_payload::hal::eusci_utils::{BitCount, BitOrder, Loopback};
use kessler_payload::hal::spi::{
    calculate_prescaler, Phase, Polarity, PollError, SpiBus, SpiConfig, SpiError, SpiRegisterRead, SpiUsci,
};

struct TestUsci;

impl SpiUsci for TestUsci {
    type SckPin = u8;
    type MosiPin = u8;
    type MisoPin = u8;
}

#[test]
fn prescaler_values() {
    assert_eq!(calculate_prescaler(1_000_000, 100_000), 10);
    assert_eq!(calculate_prescaler(32768, 0), 32768);
    assert_eq!(calculate_prescaler(u32::MAX, 1), u16::MAX);
    assert_eq!(calculate_prescaler(100, 1000), 0);
}

#[test]
fn configuration_writes() {
    let config = SpiConfig::new(
        TestUsci,
        Polarity::IdleHigh,
        Phase::CaptureOnFirstEdge,
        BitOrder::MsbFirst,
        BitCount::EightBits,
        Loopback::NoLoop,
        250_000,
    )
    .use_smclk(1_000_000);
    assert_eq!(config.state.prescaler, 4);
    assert_eq!(config.state.clksel, UcsselSpi::Smclk);
    let (mut bus, writes) = config.apply_config(1, 2, 3);
    assert_eq!(writes.len(), 5);
    assert_eq!(writes[0], SpiRegisterWrite::Ctl0Reset);
    assert_eq!(writes[2], SpiRegisterWrite::BrwSettings(4));
    assert_eq!(writes[3], SpiRegisterWrite::Loopback(false));
    match writes[4] {
        SpiRegisterWrite::Ctl0Settings(reg) => {
            assert!(reg.ucckph && reg.ucckpl && reg.ucmsb && !reg.uc7bit && reg.ucmst);
            assert_eq!(reg.ucssel, UcsselSpi::Smclk);
        },
        _ => panic!("expected control settings"),
    }
    let again = bus.reconfigure(Polarity::IdleLow, Phase::CaptureOnSecondEdge, BitOrder::LsbFirst, BitCount::SevenBits, UcsselSpi::Aclk);
    assert_eq!(again.len(), 2);
    let aclk = SpiConfig::new(TestUsci, Polarity::IdleLow, Phase::CaptureOnSecondEdge, BitOrder::LsbFirst, BitCount::SevenBits, Loopback::Loopback, 1000)
        .use_aclk(32768);
    assert_eq!(aclk.state.prescaler, 32);
    assert_eq!(bus.return_pins(), (1, 2, 3));
}

#[test]
fn poll_outcomes() {
    assert_eq!(SpiBus::<TestUsci>::read_outcome(false, true, true, 9), Err(PollError::WouldBlock));
    assert_eq!(SpiBus::<TestUsci>::read_outcome(true, true, true, 9), Err(PollError::Other(SpiError::Framing)));
    assert_eq!(SpiBus::<TestUsci>::read_outcome(true, false, true, 9), Err(PollError::Other(SpiError::Overrun(9))));
    assert_eq!(SpiBus::<TestUsci>::read_outcome(true, false, false, 9), Ok(9));
    assert_eq!(SpiBus::<TestUsci>::send_outcome(false), Err(PollError::WouldBlock));
    assert_eq!(SpiBus::<TestUsci>::send_outcome(true), Ok(()));
    assert_eq!(SpiBus::<TestUsci>::flush_outcome(true), Err(PollError::WouldBlock));
    assert_eq!(SpiBus::<TestUsci>::flush_outcome(false), Ok(()));
}

#[test]
fn reads_take_status_before_the_buffer() {
    assert!(SpiBus::<TestUsci>::read_registers(false).is_empty());
    assert_eq!(SpiBus::<TestUsci>::read_registers(true), vec![SpiRegisterRead::Status, SpiRegisterRead::RxBuffer]);
}
