use vstd::prelude::*;
use crate::bus::{
    i2c1_scl_routed, i2c1_sda_routed, i2c_timing_of, i2c_timing_ok, spi1_pins_routed,
    spi_divider_for, spi_rate_ok, uart_brr_of, uart_rate_ok, usart1_pins_routed, I2c, Serial, Spi,
    SpiMode,
};
use crate::clocks::{clock_config_legal, clock_tree_of, ClockConfig, FrozenClocks};
use crate::pins::{
    all_pins, mode_legal, ConfiguredPin, OutputType, Pin, PinId, PinMode, Port, Ports,
};
use crate::units::{khz_to_hz, mhz_to_hz};

verus! {

/// Exclusive ownership of the chip's peripherals. Only `AccessGate::take`
/// makes one, and only once.
#[derive(Debug)]
pub struct PeripheralAccess {
    ports: Ports,
}

/// Hands out the peripheral access token at most once.
#[derive(Debug)]
pub struct AccessGate {
    taken: bool,
}

impl View for AccessGate {
    type V = bool;

    /// Whether the token has been handed out.
    closed spec fn view(&self) -> bool {
        self.taken
    }
}

/// Whether an acquisition succeeds on a gate in state `taken`.
pub open spec fn access_granted(taken: bool) -> bool {
    !taken
}

impl PeripheralAccess {
    /// Every pin of every port is still in its reset state.
    pub closed spec fn fresh(&self) -> bool {
        self.ports.wf() && self.ports.available() == all_pins()
    }

    /// Splits the token into the pin sets of the GPIO ports.
    pub fn into_ports(self) -> (r: Ports)
        requires
            self.fresh(),
        ensures
            r.wf(),
            r.available() == all_pins(),
    {
        self.ports
    }
}

impl AccessGate {
    pub fn new() -> (r: AccessGate)
        ensures
            !r@,
    {
        AccessGate { taken: false }
    }

    /// Takes the peripheral access token; every attempt after the first fails.
    pub fn take(&mut self) -> (r: Option<PeripheralAccess>)
        ensures
            final(self)@,
            r is Some <==> access_granted(old(self)@),
            r is Some ==> r->Some_0.fresh(),
    {
        if self.taken {
            return None;
        }
        self.taken = true;
        Some(PeripheralAccess { ports: Ports::split_all() })
    }
}

/// The token can be acquired once: a fresh gate grants it, and a gate that
/// has been taken from, which every acquisition attempt leaves behind,
/// refuses every further attempt.
pub proof fn access_granted_once(taken: bool)
    ensures
        !taken ==> access_granted(taken),
        !access_granted(true),
{
}

/// The pins the board wires to each role.
#[derive(Clone, Copy, Debug, PartialEq, Eq, Structural)]
pub struct PinMap {
    pub led: PinId,
    pub scl: PinId,
    pub sda: PinId,
    pub sck: PinId,
    pub miso: PinId,
    pub mosi: PinId,
    pub cs: PinId,
    pub tx: PinId,
    pub rx: PinId,
}

/// Everything bring-up is configured by.
#[derive(Clone, Copy, Debug, PartialEq, Eq, Structural)]
pub struct BoardConfig {
    pub clocks: ClockConfig,
    pub i2c_hz: u32,
    pub spi_hz: u32,
    pub spi_mode: SpiMode,
    pub uart_baud: u32,
    pub pins: PinMap,
}

/// Why bring-up was aborted. Every one is fatal.
#[derive(Clone, Copy, Debug, PartialEq, Eq, Structural)]
pub enum BringUpError {
    ClockConfigError,
    /// A pin is used twice, or does not exist.
    PinUnavailable,
    UnsupportedAlternateFunction,
    PinNotRouted,
    RateConfigError,
}

/// The finished handles of the board.
#[derive(Debug)]
pub struct Board {
    pub clocks: FrozenClocks,
    pub led: ConfiguredPin,
    pub i2c: I2c,
    pub spi: Spi,
    pub cs: ConfiguredPin,
    pub serial: Serial,
}

/// The pins of a pin map, in the order they are taken.
pub open spec fn pin_list(m: PinMap) -> Seq<PinId> {
    seq![m.led, m.scl, m.sda, m.sck, m.miso, m.mosi, m.cs, m.tx, m.rx]
}

/// The mode each role of `pin_list` is committed to.
pub open spec fn role_modes() -> Seq<PinMode> {
    seq![
        PinMode::Output(OutputType::PushPull),
        PinMode::Alternate(4, OutputType::OpenDrain),
        PinMode::Alternate(4, OutputType::OpenDrain),
        PinMode::Alternate(5, OutputType::PushPull),
        PinMode::Alternate(5, OutputType::PushPull),
        PinMode::Alternate(5, OutputType::PushPull),
        PinMode::Output(OutputType::OpenDrain),
        PinMode::Alternate(7, OutputType::PushPull),
        PinMode::Alternate(7, OutputType::PushPull),
    ]
}

/// Every pin exists and none is used twice.
pub open spec fn distinct_pins(s: Seq<PinId>) -> bool {
    &&& forall|i: int| 0 <= i < s.len() ==> all_pins().contains(#[trigger] s[i])
    &&& forall|i: int, j: int| 0 <= i < j < s.len() ==> s[i] != s[j]
}

pub open spec fn modes_legal(m: PinMap) -> bool {
    forall|i: int| 0 <= i < 9 ==> mode_legal(#[trigger] pin_list(m)[i], role_modes()[i])
}

pub open spec fn buses_routed(m: PinMap) -> bool {
    let r = role_modes();
    &&& i2c1_scl_routed((m.scl, r[1]))
    &&& i2c1_sda_routed((m.sda, r[2]))
    &&& spi1_pins_routed((m.sck, r[3]), (m.miso, r[4]), (m.mosi, r[5]))
    &&& usart1_pins_routed((m.tx, r[7]), (m.rx, r[8]))
}

pub open spec fn rates_ok(c: BoardConfig) -> bool {
    let t = clock_tree_of(c.clocks);
    &&& i2c_timing_ok(t.pclk1_hz as int, c.i2c_hz as int)
    &&& spi_rate_ok(t.pclk2_hz as int, c.spi_hz as int)
    &&& uart_rate_ok(t.pclk2_hz as int, c.uart_baud as int)
}

/// The first stage of bring-up that fails on `c`, if any.
pub open spec fn bring_up_failure(c: BoardConfig) -> Option<BringUpError> {
    if !clock_config_legal(c.clocks) {
        Some(BringUpError::ClockConfigError)
    } else if !distinct_pins(pin_list(c.pins)) {
        Some(BringUpError::PinUnavailable)
    } else if !modes_legal(c.pins) {
        Some(BringUpError::UnsupportedAlternateFunction)
    } else if !buses_routed(c.pins) {
        Some(BringUpError::PinNotRouted)
    } else if !rates_ok(c) {
        Some(BringUpError::RateConfigError)
    } else {
        None
    }
}

fn role_mode(i: usize) -> (r: PinMode)
    requires
        i < 9,
    ensures
        r == role_modes()[i as int],
{
    if i == 0 {
        PinMode::Output(OutputType::PushPull)
    } else if i <= 2 {
        PinMode::Alternate(4, OutputType::OpenDrain)
    } else if i <= 5 {
        PinMode::Alternate(5, OutputType::PushPull)
    } else if i == 6 {
        PinMode::Output(OutputType::OpenDrain)
    } else {
        PinMode::Alternate(7, OutputType::PushPull)
    }
}

/// Takes every pin of `ids` from `ports`, in order, or reports that one is
/// missing or used twice.
fn take_pins(ports: &mut Ports, ids: &Vec<PinId>) -> (r: Option<Vec<Pin>>)
    requires
        old(ports).wf(),
        old(ports).available() == all_pins(),
    ensures
        r is Some <==> distinct_pins(ids@),
        r is Some ==> r->Some_0@.len() == ids@.len() && forall|k: int|
            0 <= k < ids@.len() ==> (#[trigger] r->Some_0@[k])@ == ids@[k],
{
    let mut pins: Vec<Pin> = Vec::new();
    let mut i: usize = 0;
    while i < ids.len()
        invariant
            i <= ids@.len(),
            ports.wf(),
            ports.available() == all_pins().difference(ids@.subrange(0, i as int).to_set()),
            distinct_pins(ids@.subrange(0, i as int)),
            pins@.len() == i,
            forall|k: int| 0 <= k < i ==> (#[trigger] pins@[k])@ == ids@[k],
        decreases ids@.len() - i,
    {
        let id = ids[i];
        let ghost before = ids@.subrange(0, i as int);
        match ports.take(id) {
            Some(p) => {
                pins.push(p);
                proof {
                    let after = ids@.subrange(0, i + 1);
                    assert(after =~= before.push(id));
                    assert(after.to_set() =~= before.to_set().insert(id)) by {
                        before.lemma_push_to_set_commute(id);
                    }
                    assert(ports.available() =~= all_pins().difference(after.to_set()));
                    assert forall|a: int, b: int| 0 <= a < b < after.len() implies after[a]
                        != after[b] by {
                        if b == i {
                            assert(before.to_set().contains(before[a]));
                        }
                    }
                }
                i = i + 1;
            },
            None => {
                proof {
                    if all_pins().contains(id) {
                        assert(before.to_set().contains(id));
                        let j = choose|j: int| 0 <= j < before.len() && before[j] == id;
                        assert(ids@[j] == ids@[i as int]);
                    }
                    assert(!distinct_pins(ids@)) by {
                        if distinct_pins(ids@) {
                            assert(all_pins().contains(ids@[i as int]));
                        }
                    }
                }
                return None;
            },
        }
    }
    assert(ids@.subrange(0, ids@.len() as int) =~= ids@);
    Some(pins)
}

/// Commits each pin of `pins` to its role's mode, in order.
fn commit_pins(taken: Vec<Pin>) -> (r: Option<Vec<ConfiguredPin>>)
    requires
        taken@.len() == 9,
    ensures
        r is Some <==> forall|k: int| 0 <= k < 9 ==> mode_legal(#[trigger] taken@[k]@, role_modes()[k]),
        r is Some ==> r->Some_0@.len() == 9 && forall|k: int|
            0 <= k < 9 ==> (#[trigger] r->Some_0@[k])@ == (taken@[k]@, role_modes()[k]),
{
    let ghost orig = taken@;
    let mut pins = taken;
    let mut out: Vec<ConfiguredPin> = Vec::new();
    let mut i: usize = 0;
    while i < 9
        invariant
            i <= 9,
            pins@ == orig.subrange(i as int, 9),
            orig == taken@,
            orig.len() == 9,
            out@.len() == i,
            forall|k: int| 0 <= k < i ==> mode_legal(#[trigger] orig[k]@, role_modes()[k]),
            forall|k: int| 0 <= k < i ==> (#[trigger] out@[k])@ == (orig[k]@, role_modes()[k]),
        decreases 9 - i,
    {
        let p = pins.remove(0);
        assert(p@ == orig[i as int]@);
        match p.into_mode(role_mode(i)) {
            Ok(c) => {
                out.push(c);
                i = i + 1;
            },
            Err(_) => {
                assert(!mode_legal(orig[i as int]@, role_modes()[i as int]));
                return None;
            },
        }
    }
    Some(out)
}

/// Brings the board up: freezes the clocks, splits the ports, commits every
/// pin of the map to its role, and binds the buses. Fails at the first stage
/// that cannot be completed, and then exposes nothing of the earlier ones.
pub fn bring_up(access: PeripheralAccess, cfg: &BoardConfig) -> (r: Result<Board, BringUpError>)
    requires
        access.fresh(),
    ensures
        r is Err <==> bring_up_failure(*cfg) is Some,
        r is Err ==> bring_up_failure(*cfg) == Some(r->Err_0),
        r is Ok ==> {
            let b = r->Ok_0;
            let m = cfg.pins;
            let t = clock_tree_of(cfg.clocks);
            let md = role_modes();
            &&& b.clocks@ == t
            &&& b.led@ == (m.led, md[0])
            &&& b.i2c@ == ((m.scl, md[1]), (m.sda, md[2]), i2c_timing_of(
                t.pclk1_hz as int,
                cfg.i2c_hz as int,
            ))
            &&& b.spi@ == ((m.sck, md[3]), (m.miso, md[4]), (m.mosi, md[5]), cfg.spi_mode,
                spi_divider_for(t.pclk2_hz as int / cfg.spi_hz as int) as u32)
            &&& b.cs@ == (m.cs, md[6])
            &&& b.serial@ == ((m.tx, md[7]), (m.rx, md[8]), uart_brr_of(
                t.pclk2_hz as int,
                cfg.uart_baud as int,
            ) as u32)
        },
{
    let clocks = match cfg.clocks.freeze() {
        Ok(c) => c,
        Err(_) => return Err(BringUpError::ClockConfigError),
    };
    let m = cfg.pins;
    let mut ids: Vec<PinId> = Vec::new();
    ids.push(m.led);
    ids.push(m.scl);
    ids.push(m.sda);
    ids.push(m.sck);
    ids.push(m.miso);
    ids.push(m.mosi);
    ids.push(m.cs);
    ids.push(m.tx);
    ids.push(m.rx);
    assert(ids@ =~= pin_list(m));
    let mut ports = access.into_ports();
    let pins = match take_pins(&mut ports, &ids) {
        Some(p) => p,
        None => return Err(BringUpError::PinUnavailable),
    };
    let mut committed = match commit_pins(pins) {
        Some(c) => c,
        None => return Err(BringUpError::UnsupportedAlternateFunction),
    };
    let ghost cv = committed@;
    let rx = committed.pop().unwrap();
    let tx = committed.pop().unwrap();
    let cs = committed.pop().unwrap();
    let mosi = committed.pop().unwrap();
    let miso = committed.pop().unwrap();
    let sck = committed.pop().unwrap();
    let sda = committed.pop().unwrap();
    let scl = committed.pop().unwrap();
    let led = committed.pop().unwrap();
    assert(led@ == cv[0]@ && scl@ == cv[1]@ && sda@ == cv[2]@ && sck@ == cv[3]@);
    assert(miso@ == cv[4]@ && mosi@ == cv[5]@ && cs@ == cv[6]@ && tx@ == cv[7]@ && rx@ == cv[8]@);
    if !(I2c::pins_routed(&scl, &sda) && Spi::pins_routed(&sck, &miso, &mosi)
        && Serial::pins_routed(&tx, &rx)) {
        return Err(BringUpError::PinNotRouted);
    }
    let i2c = match I2c::i2c1(scl, sda, cfg.i2c_hz, &clocks) {
        Ok(b) => b,
        Err(_) => return Err(BringUpError::RateConfigError),
    };
    let spi = match Spi::spi1(sck, miso, mosi, cfg.spi_mode, cfg.spi_hz, &clocks) {
        Ok(b) => b,
        Err(_) => return Err(BringUpError::RateConfigError),
    };
    let serial = match Serial::usart1(tx, rx, cfg.uart_baud, &clocks) {
        Ok(b) => b,
        Err(_) => return Err(BringUpError::RateConfigError),
    };
    Ok(Board { clocks, led, i2c, spi, cs, serial })
}

/// This board's configuration: an 8 MHz crystal, a 64 MHz system clock with
/// a 24 MHz target for the low-speed bus, a 400 kHz I²C bus, a 3 MHz SPI bus
/// in mode 0, a 9600 baud UART, and the pins they are wired to.
pub fn board_config() -> (r: BoardConfig)
    ensures
        r == (BoardConfig {
            clocks: ClockConfig {
                oscillator_hz: 8_000_000,
                sysclk_hz: 64_000_000,
                pclk1_hz: Some(24_000_000),
                pclk2_hz: None,
            },
            i2c_hz: 400_000,
            spi_hz: 3_000_000,
            spi_mode: SpiMode { idle_high: false, capture_on_second_edge: false },
            uart_baud: 9600,
            pins: PinMap {
                led: PinId { port: Port::C, index: 13 },
                scl: PinId { port: Port::B, index: 8 },
                sda: PinId { port: Port::B, index: 9 },
                sck: PinId { port: Port::A, index: 5 },
                miso: PinId { port: Port::A, index: 6 },
                mosi: PinId { port: Port::A, index: 7 },
                cs: PinId { port: Port::A, index: 15 },
                tx: PinId { port: Port::B, index: 6 },
                rx: PinId { port: Port::B, index: 7 },
            },
        }),
{
    BoardConfig {
        clocks: ClockConfig {
            oscillator_hz: mhz_to_hz(8),
            sysclk_hz: mhz_to_hz(64),
            pclk1_hz: Some(mhz_to_hz(24)),
            pclk2_hz: None,
        },
        i2c_hz: khz_to_hz(400),
        spi_hz: 3_000_000,
        spi_mode: SpiMode { idle_high: false, capture_on_second_edge: false },
        uart_baud: 9600,
        pins: PinMap {
            led: PinId { port: Port::C, index: 13 },
            scl: PinId { port: Port::B, index: 8 },
            sda: PinId { port: Port::B, index: 9 },
            sck: PinId { port: Port::A, index: 5 },
            miso: PinId { port: Port::A, index: 6 },
            mosi: PinId { port: Port::A, index: 7 },
            cs: PinId { port: Port::A, index: 15 },
            tx: PinId { port: Port::B, index: 6 },
            rx: PinId { port: Port::B, index: 7 },
        },
    }
}

/// Clock targets with no legal divider chain abort bring-up at its first
/// stage, before any pin is taken or any bus is bound.
pub proof fn unreachable_clocks_abort_bring_up(c: BoardConfig)
    requires
        !clock_config_legal(c.clocks),
    ensures
        bring_up_failure(c) == Some(BringUpError::ClockConfigError),
{
}

} // verus!
