use vstd::prelude::*;
use crate::clocks::FrozenClocks;
use crate::pins::{ConfiguredPin, OutputType, PinId, PinMode, Port};

verus! {

/// Fastest I²C bus clock the controller supports.
pub const I2C_MAX_HZ: u32 = 1_000_000;

/// Largest allowed deviation of an I²C bus clock from its target, per mille.
pub const I2C_TOLERANCE_PER_MILLE: u64 = 50;

/// Largest allowed deviation of a UART baud rate from its target, per mille.
pub const UART_TOLERANCE_PER_MILLE: u64 = 25;

/// Smallest and largest value of the UART baud-rate register.
pub const UART_BRR_MIN: u32 = 16;

pub const UART_BRR_MAX: u32 = 0xffff;

/// The requested communication rate cannot be derived from the bus clock.
#[derive(Clone, Copy, Debug, PartialEq, Eq, Structural)]
pub struct RateConfigError;

/// Why a bus could not be bound.
#[derive(Clone, Copy, Debug, PartialEq, Eq, Structural)]
pub enum BindError {
    /// A pin is not routed to that signal of the peripheral, or is in the
    /// wrong mode for it.
    PinNotRouted,
    RateConfigError,
}

/// Field values of the I²C timing register.
#[derive(Clone, Copy, Debug, PartialEq, Eq, Structural)]
pub struct I2cTiming {
    pub presc: u8,
    pub scll: u8,
    pub sclh: u8,
    pub sdadel: u8,
    pub scldel: u8,
}

/// Clock polarity and phase of an SPI transfer.
#[derive(Clone, Copy, Debug, PartialEq, Eq, Structural)]
pub struct SpiMode {
    pub idle_high: bool,
    pub capture_on_second_edge: bool,
}

/// `clock / divisor` is within `per_mille` thousandths of `target`.
pub open spec fn rate_within(clock: int, target: int, divisor: int, per_mille: int) -> bool {
    let d = clock - target * divisor;
    let dev = if d < 0 { -d } else { d };
    1000 * dev <= per_mille * target * divisor
}

pub open spec fn i2c_fast(freq: int) -> bool {
    freq >= 100_000
}

pub open spec fn i2c_ratio(pclk: int, freq: int) -> int {
    pclk / freq - 4
}

pub open spec fn i2c_presc(pclk: int, freq: int) -> int {
    if i2c_fast(freq) {
        i2c_ratio(pclk, freq) / 387
    } else {
        i2c_ratio(pclk, freq) / 514
    }
}

/// Prescaled ticks available for the low and high phases of the clock.
pub open spec fn i2c_scaled(pclk: int, freq: int) -> int {
    i2c_ratio(pclk, freq) / (i2c_presc(pclk, freq) + 1)
}

pub open spec fn i2c_sclh(pclk: int, freq: int) -> int {
    if i2c_fast(freq) {
        (i2c_scaled(pclk, freq) - 3) / 3
    } else {
        (i2c_scaled(pclk, freq) - 2) / 2
    }
}

pub open spec fn i2c_scll(pclk: int, freq: int) -> int {
    if i2c_fast(freq) {
        2 * (i2c_sclh(pclk, freq) + 1) - 1
    } else {
        i2c_sclh(pclk, freq)
    }
}

pub open spec fn i2c_sdadel(pclk: int, freq: int) -> int {
    let p = i2c_presc(pclk, freq) + 1;
    if freq > 400_000 {
        0
    } else if i2c_fast(freq) {
        pclk / 8_000_000 / p
    } else {
        pclk / 2_000_000 / p
    }
}

pub open spec fn i2c_scldel(pclk: int, freq: int) -> int {
    let p = i2c_presc(pclk, freq) + 1;
    if freq > 400_000 {
        pclk / 4_000_000 / p - 1
    } else if i2c_fast(freq) {
        pclk / 2_000_000 / p - 1
    } else {
        pclk / 800_000 / p - 1
    }
}

/// Bus-clock ticks in one I²C clock period: the prescaled low and high
/// phases and four ticks of synchronisation.
pub open spec fn i2c_period(pclk: int, freq: int) -> int {
    (i2c_presc(pclk, freq) + 1) * (i2c_scll(pclk, freq) + i2c_sclh(pclk, freq) + 2) + 4
}

/// The timing register can encode the I²C rate `freq` from bus clock `pclk`
/// within tolerance.
pub open spec fn i2c_timing_ok(pclk: int, freq: int) -> bool {
    &&& 0 < freq <= I2C_MAX_HZ
    &&& pclk / freq >= 4
    &&& i2c_presc(pclk, freq) < 16
    &&& i2c_scaled(pclk, freq) >= (if i2c_fast(freq) { 3int } else { 2int })
    &&& i2c_scll(pclk, freq) <= 255
    &&& i2c_sclh(pclk, freq) <= 255
    &&& 0 <= i2c_scldel(pclk, freq) < 16
    &&& i2c_sdadel(pclk, freq) < 16
    &&& rate_within(pclk, freq, i2c_period(pclk, freq), I2C_TOLERANCE_PER_MILLE as int)
}

pub open spec fn i2c_timing_of(pclk: int, freq: int) -> I2cTiming {
    I2cTiming {
        presc: i2c_presc(pclk, freq) as u8,
        scll: i2c_scll(pclk, freq) as u8,
        sclh: i2c_sclh(pclk, freq) as u8,
        sdadel: i2c_sdadel(pclk, freq) as u8,
        scldel: i2c_scldel(pclk, freq) as u8,
    }
}

/// SPI clock divider for a ratio of bus clock to target: the smallest power
/// of two from 2 to 256 that the ratio bands select.
pub open spec fn spi_divider_for(ratio: int) -> int {
    if ratio <= 2 {
        2
    } else if ratio <= 5 {
        4
    } else if ratio <= 11 {
        8
    } else if ratio <= 23 {
        16
    } else if ratio <= 39 {
        32
    } else if ratio <= 95 {
        64
    } else if ratio <= 191 {
        128
    } else {
        256
    }
}

pub open spec fn spi_rate_ok(pclk: int, freq: int) -> bool {
    freq > 0 && pclk / freq >= 1
}

pub open spec fn uart_brr_of(pclk: int, baud: int) -> int {
    pclk / baud
}

/// The baud-rate register can hold a divisor whose rate is within tolerance.
pub open spec fn uart_rate_ok(pclk: int, baud: int) -> bool {
    &&& baud > 0
    &&& UART_BRR_MIN <= uart_brr_of(pclk, baud) <= UART_BRR_MAX
    &&& rate_within(pclk, baud, uart_brr_of(pclk, baud), UART_TOLERANCE_PER_MILLE as int)
}

fn within_tolerance(clock: u64, target: u64, divisor: u64, per_mille: u64) -> (r: bool)
    requires
        target <= 0xffff_ffff,
        divisor <= 0x1_0000,
        per_mille <= 1000,
        clock <= 0xffff_ffff,
    ensures
        r == rate_within(clock as int, target as int, divisor as int, per_mille as int),
{
    assert(target * divisor <= 0xffff_ffff * 0x1_0000) by (nonlinear_arith)
        requires target <= 0xffff_ffff, divisor <= 0x1_0000;
    let prod = target * divisor;
    assert(per_mille * prod <= 1000 * (0xffff_ffff * 0x1_0000)) by (nonlinear_arith)
        requires per_mille <= 1000, prod <= 0xffff_ffff * 0x1_0000;
    let dev: u64 = if clock >= prod { clock - prod } else { prod - clock };
    assert(per_mille * prod == per_mille * target * divisor) by (nonlinear_arith)
        requires prod == target * divisor;
    1000 * dev <= per_mille * prod
}

/// The I²C timing register fields for bus rate `freq` from bus clock `pclk`.
pub fn i2c_timing(pclk: u32, freq: u32) -> (r: Result<I2cTiming, RateConfigError>)
    ensures
        r is Ok <==> i2c_timing_ok(pclk as int, freq as int),
        r is Ok ==> r->Ok_0 == i2c_timing_of(pclk as int, freq as int),
{
    if freq == 0 || freq > I2C_MAX_HZ || pclk / freq < 4 {
        return Err(RateConfigError);
    }
    let fast = freq >= 100_000;
    let ratio = pclk / freq - 4;
    let presc = if fast { ratio / 387 } else { ratio / 514 };
    if presc >= 16 {
        return Err(RateConfigError);
    }
    let p = presc + 1;
    let scaled = ratio / p;
    if scaled < (if fast { 3 } else { 2 }) {
        return Err(RateConfigError);
    }
    let sclh = if fast { (scaled - 3) / 3 } else { (scaled - 2) / 2 };
    if sclh > 255 {
        return Err(RateConfigError);
    }
    let scll = if fast { 2 * (sclh + 1) - 1 } else { sclh };
    if scll > 255 {
        return Err(RateConfigError);
    }
    let sdadel = if freq > 400_000 {
        0
    } else if fast {
        pclk / 8_000_000 / p
    } else {
        pclk / 2_000_000 / p
    };
    let scldel_base = if freq > 400_000 {
        pclk / 4_000_000 / p
    } else if fast {
        pclk / 2_000_000 / p
    } else {
        pclk / 800_000 / p
    };
    if scldel_base < 1 || scldel_base > 16 || sdadel >= 16 {
        return Err(RateConfigError);
    }
    let scldel = scldel_base - 1;
    let phases: u64 = (scll + sclh + 2) as u64;
    assert((p as u64) * phases <= 16 * 512) by (nonlinear_arith)
        requires p <= 16, phases <= 512;
    let period: u64 = (p as u64) * phases + 4;
    if !within_tolerance(pclk as u64, freq as u64, period, I2C_TOLERANCE_PER_MILLE) {
        return Err(RateConfigError);
    }
    Ok(I2cTiming {
        presc: presc as u8,
        scll: scll as u8,
        sclh: sclh as u8,
        sdadel: sdadel as u8,
        scldel: scldel as u8,
    })
}

/// The SPI clock divider for rate `freq` from bus clock `pclk`.
pub fn spi_divider(pclk: u32, freq: u32) -> (r: Result<u32, RateConfigError>)
    ensures
        r is Ok <==> spi_rate_ok(pclk as int, freq as int),
        r is Ok ==> r->Ok_0 as int == spi_divider_for(pclk as int / freq as int),
{
    if freq == 0 {
        return Err(RateConfigError);
    }
    let ratio = pclk / freq;
    if ratio == 0 {
        Err(RateConfigError)
    } else if ratio <= 2 {
        Ok(2)
    } else if ratio <= 5 {
        Ok(4)
    } else if ratio <= 11 {
        Ok(8)
    } else if ratio <= 23 {
        Ok(16)
    } else if ratio <= 39 {
        Ok(32)
    } else if ratio <= 95 {
        Ok(64)
    } else if ratio <= 191 {
        Ok(128)
    } else {
        Ok(256)
    }
}

/// The UART baud-rate register value for `baud` from bus clock `pclk`.
pub fn uart_brr(pclk: u32, baud: u32) -> (r: Result<u32, RateConfigError>)
    ensures
        r is Ok <==> uart_rate_ok(pclk as int, baud as int),
        r is Ok ==> r->Ok_0 as int == uart_brr_of(pclk as int, baud as int),
{
    if baud == 0 {
        return Err(RateConfigError);
    }
    let brr = pclk / baud;
    if brr < UART_BRR_MIN || brr > UART_BRR_MAX {
        return Err(RateConfigError);
    }
    if !within_tolerance(pclk as u64, baud as u64, brr as u64, UART_TOLERANCE_PER_MILLE) {
        return Err(RateConfigError);
    }
    Ok(brr)
}


pub open spec fn pin_is(id: PinId, port: Port, index: u8) -> bool {
    id.port == port && id.index == index
}

pub open spec fn i2c1_scl_routed(p: (PinId, PinMode)) -> bool {
    (pin_is(p.0, Port::A, 15) || pin_is(p.0, Port::B, 6) || pin_is(p.0, Port::B, 8)) && p.1 == PinMode::Alternate(
        4,
        OutputType::OpenDrain,
    )
}

pub open spec fn i2c1_sda_routed(p: (PinId, PinMode)) -> bool {
    (pin_is(p.0, Port::A, 14) || pin_is(p.0, Port::B, 7) || pin_is(p.0, Port::B, 9)) && p.1 == PinMode::Alternate(
        4,
        OutputType::OpenDrain,
    )
}

pub open spec fn spi1_pins_routed(
    sck: (PinId, PinMode),
    miso: (PinId, PinMode),
    mosi: (PinId, PinMode),
) -> bool {
    let af5 = PinMode::Alternate(5, OutputType::PushPull);
    &&& (pin_is(sck.0, Port::A, 5) || pin_is(sck.0, Port::B, 3)) && sck.1 == af5
    &&& (pin_is(miso.0, Port::A, 6) || pin_is(miso.0, Port::B, 4)) && miso.1 == af5
    &&& (pin_is(mosi.0, Port::A, 7) || pin_is(mosi.0, Port::B, 5)) && mosi.1 == af5
}

pub open spec fn usart1_pins_routed(tx: (PinId, PinMode), rx: (PinId, PinMode)) -> bool {
    let af7 = PinMode::Alternate(7, OutputType::PushPull);
    &&& (pin_is(tx.0, Port::A, 9) || pin_is(tx.0, Port::B, 6) || pin_is(tx.0, Port::C, 4))
    &&& tx.1 == af7
    &&& (pin_is(rx.0, Port::A, 10) || pin_is(rx.0, Port::B, 7) || pin_is(rx.0, Port::C, 5))
    &&& rx.1 == af7
}

fn is_pin(id: PinId, port: Port, index: u8) -> (r: bool)
    ensures
        r == pin_is(id, port, index),
{
    id.port == port && id.index == index
}

fn is_mode(m: PinMode, af: u8, otype: OutputType) -> (r: bool)
    ensures
        r == (m == PinMode::Alternate(af, otype)),
{
    match m {
        PinMode::Alternate(a, o) => a == af && o == otype,
        _ => false,
    }
}

/// An I²C master on I2C1, bound to its clock and data pins and its timing.
#[derive(Debug)]
pub struct I2c {
    scl: ConfiguredPin,
    sda: ConfiguredPin,
    timing: I2cTiming,
}

/// An SPI master on SPI1, bound to its three pins, mode and clock divider.
#[derive(Debug)]
pub struct Spi {
    sck: ConfiguredPin,
    miso: ConfiguredPin,
    mosi: ConfiguredPin,
    mode: SpiMode,
    divider: u32,
}

/// A UART on USART1, bound to its transmit and receive pins and baud divisor.
#[derive(Debug)]
pub struct Serial {
    tx: ConfiguredPin,
    rx: ConfiguredPin,
    brr: u32,
}

impl View for I2c {
    type V = ((PinId, PinMode), (PinId, PinMode), I2cTiming);

    closed spec fn view(&self) -> Self::V {
        (self.scl@, self.sda@, self.timing)
    }
}

impl View for Spi {
    type V = ((PinId, PinMode), (PinId, PinMode), (PinId, PinMode), SpiMode, u32);

    closed spec fn view(&self) -> Self::V {
        (self.sck@, self.miso@, self.mosi@, self.mode, self.divider)
    }
}

impl View for Serial {
    type V = ((PinId, PinMode), (PinId, PinMode), u32);

    closed spec fn view(&self) -> Self::V {
        (self.tx@, self.rx@, self.brr)
    }
}

impl I2c {
    /// Whether `scl` and `sda` are wired to I2C1 and in its open-drain role.
    pub fn pins_routed(scl: &ConfiguredPin, sda: &ConfiguredPin) -> (r: bool)
        ensures
            r == (i2c1_scl_routed(scl@) && i2c1_sda_routed(sda@)),
    {
        let scl_ok = (is_pin(scl.id(), Port::A, 15) || is_pin(scl.id(), Port::B, 6) || is_pin(scl.id(), Port::B, 8)) && is_mode(
            scl.mode(),
            4,
            OutputType::OpenDrain,
        );
        let sda_ok = (is_pin(sda.id(), Port::A, 14) || is_pin(sda.id(), Port::B, 7) || is_pin(sda.id(), Port::B, 9)) && is_mode(
            sda.mode(),
            4,
            OutputType::OpenDrain,
        );
        scl_ok && sda_ok
    }

    /// Binds I2C1 to `scl` and `sda` at bus rate `freq`, timed from the
    /// low-speed bus clock.
    pub fn i2c1(scl: ConfiguredPin, sda: ConfiguredPin, freq: u32, clocks: &FrozenClocks) -> (r:
        Result<I2c, BindError>)
        ensures
            !(i2c1_scl_routed(scl@) && i2c1_sda_routed(sda@)) <==> r == Err::<I2c, BindError>(
                BindError::PinNotRouted,
            ),
            r is Ok <==> (i2c1_scl_routed(scl@) && i2c1_sda_routed(sda@) && i2c_timing_ok(
                clocks@.pclk1_hz as int,
                freq as int,
            )),
            r is Ok ==> r->Ok_0@ == (scl@, sda@, i2c_timing_of(clocks@.pclk1_hz as int, freq as int)),
    {
        if !I2c::pins_routed(&scl, &sda) {
            return Err(BindError::PinNotRouted);
        }
        match i2c_timing(clocks.pclk1_hz(), freq) {
            Ok(timing) => Ok(I2c { scl, sda, timing }),
            Err(_) => Err(BindError::RateConfigError),
        }
    }

    pub fn timing(&self) -> (r: I2cTiming)
        ensures
            r == self@.2,
    {
        self.timing
    }
}

impl Spi {
    /// Whether the three pins are wired to SPI1 and in its push-pull role.
    pub fn pins_routed(sck: &ConfiguredPin, miso: &ConfiguredPin, mosi: &ConfiguredPin) -> (r:
        bool)
        ensures
            r == spi1_pins_routed(sck@, miso@, mosi@),
    {
        let af5_ok = is_mode(sck.mode(), 5, OutputType::PushPull) && is_mode(
            miso.mode(),
            5,
            OutputType::PushPull,
        ) && is_mode(mosi.mode(), 5, OutputType::PushPull);
        let pins_ok = (is_pin(sck.id(), Port::A, 5) || is_pin(sck.id(), Port::B, 3)) && (is_pin(
            miso.id(),
            Port::A,
            6,
        ) || is_pin(miso.id(), Port::B, 4)) && (is_pin(
            mosi.id(),
            Port::A,
            7,
        ) || is_pin(mosi.id(), Port::B, 5));
        af5_ok && pins_ok
    }

    /// Binds SPI1 to `sck`, `miso` and `mosi` in `mode` at clock rate `freq`,
    /// divided from the high-speed bus clock.
    pub fn spi1(
        sck: ConfiguredPin,
        miso: ConfiguredPin,
        mosi: ConfiguredPin,
        mode: SpiMode,
        freq: u32,
        clocks: &FrozenClocks,
    ) -> (r: Result<Spi, BindError>)
        ensures
            !spi1_pins_routed(sck@, miso@, mosi@) <==> r == Err::<Spi, BindError>(
                BindError::PinNotRouted,
            ),
            r is Ok <==> (spi1_pins_routed(sck@, miso@, mosi@) && spi_rate_ok(
                clocks@.pclk2_hz as int,
                freq as int,
            )),
            r is Ok ==> r->Ok_0@ == (sck@, miso@, mosi@, mode, spi_divider_for(
                clocks@.pclk2_hz as int / freq as int,
            ) as u32),
    {
        if !Spi::pins_routed(&sck, &miso, &mosi) {
            return Err(BindError::PinNotRouted);
        }
        match spi_divider(clocks.pclk2_hz(), freq) {
            Ok(divider) => Ok(Spi { sck, miso, mosi, mode, divider }),
            Err(_) => Err(BindError::RateConfigError),
        }
    }

    pub fn divider(&self) -> (r: u32)
        ensures
            r == self@.4,
    {
        self.divider
    }

    pub fn mode(&self) -> (r: SpiMode)
        ensures
            r == self@.3,
    {
        self.mode
    }
}

impl Serial {
    /// Whether `tx` and `rx` are wired to USART1 and in its push-pull role.
    pub fn pins_routed(tx: &ConfiguredPin, rx: &ConfiguredPin) -> (r: bool)
        ensures
            r == usart1_pins_routed(tx@, rx@),
    {
        let tx_id = tx.id();
        let rx_id = rx.id();
        let tx_ok = (is_pin(tx_id, Port::A, 9) || is_pin(tx_id, Port::B, 6) || is_pin(
            tx_id,
            Port::C,
            4,
        )) && is_mode(tx.mode(), 7, OutputType::PushPull);
        let rx_ok = (is_pin(rx_id, Port::A, 10) || is_pin(rx_id, Port::B, 7) || is_pin(
            rx_id,
            Port::C,
            5,
        )) && is_mode(rx.mode(), 7, OutputType::PushPull);
        tx_ok && rx_ok
    }

    /// Binds USART1 to `tx` and `rx` at `baud`, divided from the high-speed
    /// bus clock.
    pub fn usart1(tx: ConfiguredPin, rx: ConfiguredPin, baud: u32, clocks: &FrozenClocks) -> (r:
        Result<Serial, BindError>)
        ensures
            !usart1_pins_routed(tx@, rx@) <==> r == Err::<Serial, BindError>(
                BindError::PinNotRouted,
            ),
            r is Ok <==> (usart1_pins_routed(tx@, rx@) && uart_rate_ok(
                clocks@.pclk2_hz as int,
                baud as int,
            )),
            r is Ok ==> r->Ok_0@ == (tx@, rx@, uart_brr_of(
                clocks@.pclk2_hz as int,
                baud as int,
            ) as u32),
    {
        if !Serial::pins_routed(&tx, &rx) {
            return Err(BindError::PinNotRouted);
        }
        match uart_brr(clocks.pclk2_hz(), baud) {
            Ok(brr) => Ok(Serial { tx, rx, brr }),
            Err(_) => Err(BindError::RateConfigError),
        }
    }

    pub fn brr(&self) -> (r: u32)
        ensures
            r == self@.2,
    {
        self.brr
    }
}

} // verus!
