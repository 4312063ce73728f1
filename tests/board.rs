use board_setup::bringup::{board_config, bring_up, AccessGate, BringUpError};
use board_setup::bus::{i2c_timing, spi_divider, uart_brr, I2cTiming, RateConfigError};
use board_setup::clocks::{ClockConfig, ClockConfigError, ClockSource, ClockStep};
use board_setup::pins::{
    alternate_function_supported, OutputType, PinId, PinMode, PinRegisters, Port, Ports,
    UnsupportedAlternateFunction,
};

fn clocks(osc: u32, sys: u32, pclk1: Option<u32>, pclk2: Option<u32>) -> ClockConfig {
    ClockConfig { oscillator_hz: osc, sysclk_hz: sys, pclk1_hz: pclk1, pclk2_hz: pclk2 }
}

fn pin(port: Port, index: u8) -> PinId {
    PinId { port, index }
}

#[test]
fn board_clock_targets() {
    let f = clocks(8_000_000, 64_000_000, Some(24_000_000), None).freeze().unwrap();
    assert_eq!(f.sysclk_hz(), 64_000_000);
    // 64 MHz / 24 MHz falls in the ratio band of a divide-by-two prescaler.
    assert_eq!(f.pclk1_hz(), 32_000_000);
    assert_eq!(f.pclk2_hz(), 64_000_000);
    let t = f.tree();
    assert_eq!(t.pll_mul, 8);
    assert_eq!(t.hpre, 1);
    assert_eq!(t.hclk_hz, 64_000_000);
    assert_eq!(t.ppre1, 2);
    assert_eq!(t.ppre2, 1);
    assert_eq!(t.flash_wait_states, 2);
}

#[test]
fn exact_divider_chain_is_exact() {
    let f = clocks(8_000_000, 64_000_000, Some(32_000_000), Some(64_000_000)).freeze().unwrap();
    assert_eq!(f.sysclk_hz(), 64_000_000);
    assert_eq!(f.pclk1_hz(), 32_000_000);
    assert_eq!(f.pclk2_hz(), 64_000_000);
    let f = clocks(8_000_000, 72_000_000, Some(36_000_000), None).freeze().unwrap();
    assert_eq!(f.pclk1_hz(), 36_000_000);
    assert_eq!(f.tree().pll_mul, 9);
}

#[test]
fn ahb_divides_for_slow_bus() {
    let f = clocks(8_000_000, 64_000_000, Some(2_000_000), None).freeze().unwrap();
    let t = f.tree();
    assert_eq!(t.sysclk_hz, 64_000_000);
    assert_eq!(t.hpre, 2);
    assert_eq!(t.hclk_hz, 32_000_000);
    assert_eq!(t.ppre1, 16);
    assert_eq!(t.pclk1_hz, 2_000_000);
    assert_eq!(t.pclk2_hz, 32_000_000);
    assert_eq!(
        f.register_steps(),
        vec![
            ClockStep::SetFlashWaitStates(2),
            ClockStep::EnableOscillator,
            ClockStep::ConfigurePll(8),
            ClockStep::SetBusPrescalers(2, 16, 1),
            ClockStep::SelectSystemClock(ClockSource::Pll),
        ]
    );
    let f = clocks(8_000_000, 64_000_000, Some(125_000), None).freeze().unwrap();
    assert_eq!(f.tree().hpre, 64);
    assert_eq!(f.tree().ppre1, 8);
    assert_eq!(f.pclk1_hz(), 125_000);
    let f = clocks(8_000_000, 64_000_000, Some(15_625), None).freeze().unwrap();
    assert_eq!(f.tree().hpre, 256);
    assert_eq!(f.pclk1_hz(), 15_625);
}

#[test]
fn ahb_cannot_serve_both_buses() {
    // the slow bus needs the AHB divided, the fast one forbids it
    assert!(clocks(8_000_000, 64_000_000, Some(2_000_000), Some(64_000_000)).freeze().is_err());
    // below what the largest prescalers reach
    assert!(clocks(8_000_000, 8_000_000, Some(500), None).freeze().is_err());
}

#[test]
fn bus_clock_rounds_within_tolerance() {
    let f = clocks(8_000_000, 48_000_000, Some(10_000_000), None).freeze().unwrap();
    assert_eq!(f.pclk1_hz(), 12_000_000);
    assert!(f.pclk1_hz() < 2 * 10_000_000 && 10_000_000 < 2 * (f.pclk1_hz() + 1));
    assert_eq!(f.tree().flash_wait_states, 1);
}

#[test]
fn oscillator_direct_without_pll() {
    let f = clocks(8_000_000, 8_000_000, None, None).freeze().unwrap();
    assert_eq!(f.tree().pll_mul, 1);
    assert_eq!(f.tree().flash_wait_states, 0);
    assert_eq!(
        f.register_steps(),
        vec![
            ClockStep::SetFlashWaitStates(0),
            ClockStep::EnableOscillator,
            ClockStep::SetBusPrescalers(1, 1, 1),
            ClockStep::SelectSystemClock(ClockSource::Oscillator),
        ]
    );
}

#[test]
fn wait_states_written_before_switch() {
    let f = clocks(8_000_000, 64_000_000, Some(24_000_000), None).freeze().unwrap();
    assert_eq!(
        f.register_steps(),
        vec![
            ClockStep::SetFlashWaitStates(2),
            ClockStep::EnableOscillator,
            ClockStep::ConfigurePll(8),
            ClockStep::SetBusPrescalers(1, 2, 1),
            ClockStep::SelectSystemClock(ClockSource::Pll),
        ]
    );
}

#[test]
fn unreachable_clock_targets_fail() {
    // not a multiple of the oscillator
    assert_eq!(clocks(8_000_000, 60_000_000, None, None).freeze().unwrap_err(), ClockConfigError);
    // above the rated system clock
    assert!(clocks(8_000_000, 80_000_000, None, None).freeze().is_err());
    // PLL factor above sixteen
    assert!(clocks(4_000_000, 68_000_000, None, None).freeze().is_err());
    // oscillator out of range
    assert!(clocks(2_000_000, 8_000_000, None, None).freeze().is_err());
    // undivided low-speed bus above its rating
    assert!(clocks(8_000_000, 64_000_000, None, None).freeze().is_err());
    // bus target above the system clock, and zero
    assert!(clocks(8_000_000, 32_000_000, Some(33_000_000), None).freeze().is_err());
    assert!(clocks(8_000_000, 32_000_000, Some(0), None).freeze().is_err());
}

#[test]
fn access_token_taken_once() {
    let mut gate = AccessGate::new();
    assert!(gate.take().is_some());
    assert!(gate.take().is_none());
    assert!(gate.take().is_none());
}

#[test]
fn pin_handed_out_once() {
    let mut ports = Ports::split_all();
    let p = ports.take(pin(Port::A, 5)).unwrap();
    assert_eq!(p.id(), pin(Port::A, 5));
    assert!(ports.take(pin(Port::A, 5)).is_none());
    assert!(ports.take(pin(Port::B, 5)).is_some());
    assert!(ports.take(pin(Port::C, 16)).is_none());
}

#[test]
fn pin_mode_registers() {
    let mut ports = Ports::split_all();
    let scl = ports.take(pin(Port::B, 8)).unwrap();
    let scl = scl.into_mode(PinMode::Alternate(4, OutputType::OpenDrain)).unwrap();
    assert_eq!(scl.registers(), PinRegisters { moder: 2, otyper: 1, afr: 4 });
    let led = ports.take(pin(Port::C, 13)).unwrap();
    let led = led.into_mode(PinMode::Output(OutputType::PushPull)).unwrap();
    assert_eq!(led.registers(), PinRegisters { moder: 1, otyper: 0, afr: 0 });
    let led = led.into_mode(PinMode::Analog).unwrap();
    assert_eq!(led.registers(), PinRegisters { moder: 3, otyper: 0, afr: 0 });
}

#[test]
fn unwired_alternate_function_rejected() {
    // PA5 is wired to functions 1, 3, 5 and 15 only.
    assert!(!alternate_function_supported(pin(Port::A, 5), 7));
    assert!(alternate_function_supported(pin(Port::A, 5), 5));
    assert!(alternate_function_supported(pin(Port::A, 9), 7));
    assert!(alternate_function_supported(pin(Port::C, 13), 4));
    assert!(alternate_function_supported(pin(Port::B, 8), 12));
    assert!(!alternate_function_supported(pin(Port::B, 9), 12));
    assert!(!alternate_function_supported(pin(Port::C, 14), 0));
    let mut ports = Ports::split_all();
    let p = ports.take(pin(Port::A, 5)).unwrap();
    let r = p.into_mode(PinMode::Alternate(7, OutputType::PushPull));
    assert_eq!(r.unwrap_err(), UnsupportedAlternateFunction);
}

#[test]
fn i2c_fast_mode_timing() {
    let t = i2c_timing(24_000_000, 400_000).unwrap();
    assert_eq!(t, I2cTiming { presc: 0, scll: 35, sclh: 17, sdadel: 3, scldel: 11 });
    let period = (t.presc as u32 + 1) * (t.scll as u32 + t.sclh as u32 + 2) + 4;
    let rate = 24_000_000 / period;
    assert_eq!(rate, 413_793);
    assert!(rate >= 380_000 && rate <= 420_000);
}

#[test]
fn i2c_standard_mode_timing() {
    let t = i2c_timing(8_000_000, 50_000).unwrap();
    assert_eq!(t, I2cTiming { presc: 0, scll: 77, sclh: 77, sdadel: 4, scldel: 9 });
    // the clock setup delay no longer fits its field
    assert_eq!(i2c_timing(32_000_000, 50_000), Err(RateConfigError));
    // from 100 kHz on, the low phase is twice the high phase
    let t = i2c_timing(8_000_000, 100_000).unwrap();
    assert_eq!(t, I2cTiming { presc: 0, scll: 49, sclh: 24, sdadel: 1, scldel: 3 });
}

#[test]
fn i2c_rate_errors() {
    assert_eq!(i2c_timing(24_000_000, 0), Err(RateConfigError));
    assert_eq!(i2c_timing(24_000_000, 2_000_000), Err(RateConfigError));
    assert_eq!(i2c_timing(1_000_000, 400_000), Err(RateConfigError));
}

#[test]
fn uart_divisor() {
    assert_eq!(uart_brr(64_000_000, 9600), Ok(6666));
    assert_eq!(uart_brr(1_000_000, 60_000), Err(RateConfigError));
    assert_eq!(uart_brr(1_000_000, 115_200), Err(RateConfigError));
    assert_eq!(uart_brr(64_000_000, 0), Err(RateConfigError));
    assert_eq!(uart_brr(64_000_000, 900), Err(RateConfigError));
}

#[test]
fn spi_divider_bands() {
    assert_eq!(spi_divider(64_000_000, 3_000_000), Ok(16));
    assert_eq!(spi_divider(64_000_000, 64_000_000), Ok(2));
    assert_eq!(spi_divider(64_000_000, 100_000), Ok(256));
    assert_eq!(spi_divider(64_000_000, 65_000_000), Err(RateConfigError));
    assert_eq!(spi_divider(64_000_000, 0), Err(RateConfigError));
}

#[test]
fn board_config_values() {
    let c = board_config();
    assert_eq!(c.clocks.oscillator_hz, 8_000_000);
    assert_eq!(c.clocks.sysclk_hz, 64_000_000);
    assert_eq!(c.clocks.pclk1_hz, Some(24_000_000));
    assert_eq!(c.i2c_hz, 400_000);
    assert_eq!(c.uart_baud, 9600);
}

#[test]
fn board_brings_up() {
    let access = AccessGate::new().take().unwrap();
    let b = bring_up(access, &board_config()).unwrap();
    assert_eq!(b.clocks.pclk1_hz(), 32_000_000);
    assert_eq!(b.led.id(), pin(Port::C, 13));
    assert_eq!(b.led.mode(), PinMode::Output(OutputType::PushPull));
    assert_eq!(b.cs.mode(), PinMode::Output(OutputType::OpenDrain));
    assert_eq!(b.i2c.timing(), I2cTiming { presc: 0, scll: 49, sclh: 24, sdadel: 4, scldel: 15 });
    assert_eq!(b.spi.divider(), 16);
    assert_eq!(b.serial.brr(), 6666);
}

#[test]
fn bring_up_clock_failure() {
    let mut c = board_config();
    c.clocks.sysclk_hz = 100_000_000;
    let access = AccessGate::new().take().unwrap();
    assert_eq!(bring_up(access, &c).unwrap_err(), BringUpError::ClockConfigError);
}

#[test]
fn bring_up_pin_used_twice() {
    let mut c = board_config();
    c.pins.cs = pin(Port::C, 13);
    let access = AccessGate::new().take().unwrap();
    assert_eq!(bring_up(access, &c).unwrap_err(), BringUpError::PinUnavailable);
}

#[test]
fn bring_up_unwired_function() {
    let mut c = board_config();
    // PB2 is wired to functions 3 and 15 only.
    c.pins.tx = pin(Port::B, 2);
    let access = AccessGate::new().take().unwrap();
    assert_eq!(bring_up(access, &c).unwrap_err(), BringUpError::UnsupportedAlternateFunction);
}

#[test]
fn bring_up_on_other_routes() {
    let mut c = board_config();
    c.pins.tx = pin(Port::A, 9);
    c.pins.rx = pin(Port::A, 10);
    c.pins.mosi = pin(Port::B, 5);
    let access = AccessGate::new().take().unwrap();
    let b = bring_up(access, &c).unwrap();
    assert_eq!(b.serial.brr(), 6666);
    assert_eq!(b.spi.divider(), 16);
}

#[test]
fn bring_up_on_remapped_buses() {
    let mut c = board_config();
    c.pins.cs = pin(Port::A, 4);
    c.pins.scl = pin(Port::A, 15);
    c.pins.sda = pin(Port::A, 14);
    c.pins.sck = pin(Port::B, 3);
    c.pins.miso = pin(Port::B, 4);
    let access = AccessGate::new().take().unwrap();
    let b = bring_up(access, &c).unwrap();
    assert_eq!(b.i2c.timing(), I2cTiming { presc: 0, scll: 49, sclh: 24, sdadel: 4, scldel: 15 });
    assert_eq!(b.spi.divider(), 16);
}

#[test]
fn bring_up_pins_swapped() {
    let mut c = board_config();
    c.pins.scl = pin(Port::B, 9);
    c.pins.sda = pin(Port::B, 8);
    let access = AccessGate::new().take().unwrap();
    assert_eq!(bring_up(access, &c).unwrap_err(), BringUpError::PinNotRouted);
}

#[test]
fn bring_up_rate_failure() {
    let mut c = board_config();
    c.uart_baud = 5_000_000;
    let access = AccessGate::new().take().unwrap();
    assert_eq!(bring_up(access, &c).unwrap_err(), BringUpError::RateConfigError);
}
