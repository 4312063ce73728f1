use vstd::prelude::*;

verus! {

/// Lowest external oscillator frequency the clock controller accepts.
pub const HSE_MIN_HZ: u32 = 4_000_000;

/// Highest external oscillator frequency the clock controller accepts.
pub const HSE_MAX_HZ: u32 = 32_000_000;

/// Highest system clock frequency the silicon is rated for.
pub const SYSCLK_MAX_HZ: u32 = 72_000_000;

/// Highest frequency of the low-speed peripheral bus (APB1).
pub const PCLK1_MAX_HZ: u32 = 36_000_000;

/// Highest frequency of the high-speed peripheral bus (APB2).
pub const PCLK2_MAX_HZ: u32 = 72_000_000;

/// Largest multiplication factor of the PLL.
pub const PLL_MUL_MAX: u32 = 16;

/// The requested clock targets have no legal divider chain.
#[derive(Clone, Copy, Debug, PartialEq, Eq, Structural)]
pub struct ClockConfigError;

/// Declarative clock targets: an external oscillator, the system clock, and
/// optionally the two peripheral bus clocks (`None` leaves a bus undivided).
/// The AHB bus divides from the system clock only as far as the requested
/// bus clocks need; the peripheral buses divide from the AHB clock.
#[derive(Clone, Copy, Debug, PartialEq, Eq, Structural)]
pub struct ClockConfig {
    pub oscillator_hz: u32,
    pub sysclk_hz: u32,
    pub pclk1_hz: Option<u32>,
    pub pclk2_hz: Option<u32>,
}

/// The frequencies and divider settings of a committed clock tree.
#[derive(Clone, Copy, Debug, PartialEq, Eq, Structural)]
pub struct ClockTree {
    pub sysclk_hz: u32,
    pub hclk_hz: u32,
    pub pclk1_hz: u32,
    pub pclk2_hz: u32,
    /// PLL factor; 1 means the oscillator drives the system clock directly.
    pub pll_mul: u32,
    pub hpre: u32,
    pub ppre1: u32,
    pub ppre2: u32,
    pub flash_wait_states: u32,
}

/// An immutable, validated clock tree. Only `ClockConfig::freeze` makes one.
#[derive(Clone, Copy, Debug)]
pub struct FrozenClocks {
    tree: ClockTree,
}

impl View for FrozenClocks {
    type V = ClockTree;

    closed spec fn view(&self) -> ClockTree {
        self.tree
    }
}

/// Which source drives the system clock after the switch.
#[derive(Clone, Copy, Debug, PartialEq, Eq, Structural)]
pub enum ClockSource {
    Oscillator,
    Pll,
}

/// One write to the clock-control or flash registers.
#[derive(Clone, Copy, Debug, PartialEq, Eq, Structural)]
pub enum ClockStep {
    SetFlashWaitStates(u32),
    EnableOscillator,
    ConfigurePll(u32),
    /// AHB, APB1 and APB2 prescalers.
    SetBusPrescalers(u32, u32, u32),
    SelectSystemClock(ClockSource),
}

/// Bus prescaler picked for a ratio of parent to target frequency: the
/// available powers of two, rounding as the clock controller's ratio bands do.
pub open spec fn apb_prescaler(ratio: int) -> int {
    if ratio <= 1 {
        1
    } else if ratio == 2 {
        2
    } else if ratio <= 5 {
        4
    } else if ratio <= 11 {
        8
    } else {
        16
    }
}

/// A bus target is usable when it lies between a sixteenth of the parent
/// clock and the parent clock.
pub open spec fn bus_target_ok(hclk: int, target: Option<u32>) -> bool {
    match target {
        None => true,
        Some(t) => t > 0 && 1 <= hclk / (t as int) <= 16,
    }
}

pub open spec fn bus_prescaler(hclk: int, target: Option<u32>) -> int {
    match target {
        None => 1,
        Some(t) => apb_prescaler(hclk / (t as int)),
    }
}

/// The oscillator is in range and the system clock is an exact multiple of
/// it within the PLL's factors and the silicon's rating.
pub open spec fn sysclk_reachable(osc: int, sys: int) -> bool {
    &&& HSE_MIN_HZ <= osc <= HSE_MAX_HZ
    &&& sys <= SYSCLK_MAX_HZ
    &&& sys % osc == 0
    &&& 1 <= sys / osc <= PLL_MUL_MAX
}

/// Flash wait states needed at a system clock frequency.
pub open spec fn wait_states_for(sys: int) -> int {
    if sys <= 24_000_000 {
        0
    } else if sys <= 48_000_000 {
        1
    } else {
        2
    }
}

/// A bus target can be reached from AHB clock `hclk` by an APB prescaler
/// of at most sixteen.
pub open spec fn within_apb_reach(hclk: int, target: Option<u32>) -> bool {
    match target {
        None => true,
        Some(t) => t > 0 && hclk / (t as int) <= 16,
    }
}

/// An AHB prescaler `h` brings both bus targets within APB reach.
pub open spec fn ahb_fits(sys: int, h: int, c: ClockConfig) -> bool {
    within_apb_reach(sys / h, c.pclk1_hz) && within_apb_reach(sys / h, c.pclk2_hz)
}

/// The smallest AHB prescaler of 1, 2, 4, 8, 16, 64, 128, 256 and 512 that
/// brings both bus targets within APB reach; 0 when none does.
pub open spec fn ahb_prescaler(c: ClockConfig) -> int {
    let s = c.sysclk_hz as int;
    if ahb_fits(s, 1, c) {
        1
    } else if ahb_fits(s, 2, c) {
        2
    } else if ahb_fits(s, 4, c) {
        4
    } else if ahb_fits(s, 8, c) {
        8
    } else if ahb_fits(s, 16, c) {
        16
    } else if ahb_fits(s, 64, c) {
        64
    } else if ahb_fits(s, 128, c) {
        128
    } else if ahb_fits(s, 256, c) {
        256
    } else if ahb_fits(s, 512, c) {
        512
    } else {
        0
    }
}

/// The AHB clock of a configuration whose AHB prescaler exists.
pub open spec fn hclk_of(c: ClockConfig) -> int {
    c.sysclk_hz as int / ahb_prescaler(c)
}

pub open spec fn clock_config_legal(c: ClockConfig) -> bool {
    let h = hclk_of(c);
    &&& sysclk_reachable(c.oscillator_hz as int, c.sysclk_hz as int)
    &&& ahb_prescaler(c) != 0
    &&& bus_target_ok(h, c.pclk1_hz)
    &&& bus_target_ok(h, c.pclk2_hz)
    &&& h / bus_prescaler(h, c.pclk1_hz) <= PCLK1_MAX_HZ
    &&& h / bus_prescaler(h, c.pclk2_hz) <= PCLK2_MAX_HZ
}

/// The clock tree that a legal configuration commits to.
pub open spec fn clock_tree_of(c: ClockConfig) -> ClockTree {
    let s = c.sysclk_hz as int;
    let h = hclk_of(c);
    let p1 = bus_prescaler(h, c.pclk1_hz);
    let p2 = bus_prescaler(h, c.pclk2_hz);
    ClockTree {
        sysclk_hz: c.sysclk_hz,
        hclk_hz: h as u32,
        pclk1_hz: (h / p1) as u32,
        pclk2_hz: (h / p2) as u32,
        pll_mul: (s / (c.oscillator_hz as int)) as u32,
        hpre: ahb_prescaler(c) as u32,
        ppre1: p1 as u32,
        ppre2: p2 as u32,
        flash_wait_states: wait_states_for(s) as u32,
    }
}

/// The register writes that commit a clock tree, in order. The flash wait
/// states are raised before anything else, so the flash is never read with
/// too few wait states for the clock that is running.
pub open spec fn clock_steps_of(t: ClockTree) -> Seq<ClockStep> {
    if t.pll_mul == 1 {
        seq![
            ClockStep::SetFlashWaitStates(t.flash_wait_states),
            ClockStep::EnableOscillator,
            ClockStep::SetBusPrescalers(t.hpre, t.ppre1, t.ppre2),
            ClockStep::SelectSystemClock(ClockSource::Oscillator),
        ]
    } else {
        seq![
            ClockStep::SetFlashWaitStates(t.flash_wait_states),
            ClockStep::EnableOscillator,
            ClockStep::ConfigurePll(t.pll_mul),
            ClockStep::SetBusPrescalers(t.hpre, t.ppre1, t.ppre2),
            ClockStep::SelectSystemClock(ClockSource::Pll),
        ]
    }
}

/// A derived frequency is within the builder's rounding tolerance of its
/// target: less than twice the target, and more than half of it up to one hertz.
pub open spec fn within_rounding_tolerance(actual: int, target: int) -> bool {
    actual < 2 * target && target < 2 * (actual + 1)
}

/// For every legal configuration, the frozen system clock equals its target
/// exactly, and each requested bus clock is within the rounding tolerance of
/// its target.
pub proof fn frozen_clocks_meet_targets(c: ClockConfig)
    requires
        clock_config_legal(c),
    ensures
        clock_tree_of(c).sysclk_hz == c.sysclk_hz,
        clock_tree_of(c).pclk1_hz <= PCLK1_MAX_HZ,
        clock_tree_of(c).pclk2_hz <= PCLK2_MAX_HZ,
        c.pclk1_hz is Some ==> within_rounding_tolerance(
            clock_tree_of(c).pclk1_hz as int,
            c.pclk1_hz->Some_0 as int,
        ),
        c.pclk2_hz is Some ==> within_rounding_tolerance(
            clock_tree_of(c).pclk2_hz as int,
            c.pclk2_hz->Some_0 as int,
        ),
{
    let h = hclk_of(c);
    if c.pclk1_hz is Some {
        lemma_bus_tolerance(h, c.pclk1_hz->Some_0 as int);
    }
    if c.pclk2_hz is Some {
        lemma_bus_tolerance(h, c.pclk2_hz->Some_0 as int);
    }
}

/// One of the AHB prescalers the clock controller offers.
pub open spec fn is_ahb_prescaler(h: int) -> bool {
    h == 1 || h == 2 || h == 4 || h == 8 || h == 16 || h == 64 || h == 128 || h == 256 || h
        == 512
}

/// Whenever some AHB prescaler puts every requested bus clock between a
/// sixteenth of the AHB clock and the AHB clock, the builder picks an AHB
/// prescaler no larger, under which every requested bus clock is still
/// reachable by an APB prescaler.
pub proof fn ahb_choice_is_complete(c: ClockConfig, h: int)
    requires
        is_ahb_prescaler(h),
        bus_target_ok(c.sysclk_hz as int / h, c.pclk1_hz),
        bus_target_ok(c.sysclk_hz as int / h, c.pclk2_hz),
    ensures
        ahb_prescaler(c) != 0,
        ahb_prescaler(c) <= h,
        bus_target_ok(hclk_of(c), c.pclk1_hz),
        bus_target_ok(hclk_of(c), c.pclk2_hz),
{
    let s = c.sysclk_hz as int;
    assert(ahb_fits(s, h, c));
    let h0 = ahb_prescaler(c);
    assert(1 <= h0 <= h);
    vstd::arithmetic::div_mod::lemma_div_is_ordered_by_denominator(s, h0, h);
    if c.pclk1_hz is Some {
        let t = c.pclk1_hz->Some_0 as int;
        vstd::arithmetic::div_mod::lemma_div_is_ordered(s / h, s / h0, t);
    }
    if c.pclk2_hz is Some {
        let t = c.pclk2_hz->Some_0 as int;
        vstd::arithmetic::div_mod::lemma_div_is_ordered(s / h, s / h0, t);
    }
}

proof fn lemma_bus_tolerance(h: int, t: int)
    requires
        t > 0,
        h >= 0,
        1 <= h / t <= 16,
    ensures
        within_rounding_tolerance(h / apb_prescaler(h / t), t),
{
    let r = h / t;
    let p = apb_prescaler(r);
    let b = h / p;
    assert(r * t <= h < (r + 1) * t) by (nonlinear_arith)
        requires r == h / t, t > 0;
    assert(p > 0);
    assert(b * p <= h < (b + 1) * p) by (nonlinear_arith)
        requires b == h / p, p > 0;
    if r == 1 {
        assert(t <= h < 2 * t) by (nonlinear_arith)
            requires r * t <= h < (r + 1) * t, r == 1;
        assert(within_rounding_tolerance(b, t)) by (nonlinear_arith)
            requires b * p <= h < (b + 1) * p, p == 1, t <= h < 2 * t;
    } else if r == 2 {
        assert(2 * t <= h < 3 * t) by (nonlinear_arith)
            requires r * t <= h < (r + 1) * t, r == 2;
        assert(within_rounding_tolerance(b, t)) by (nonlinear_arith)
            requires b * p <= h < (b + 1) * p, p == 2, 2 * t <= h < 3 * t;
    } else if r <= 5 {
        assert(3 * t <= h < 6 * t) by (nonlinear_arith)
            requires r * t <= h < (r + 1) * t, 3 <= r <= 5, t > 0;
        assert(within_rounding_tolerance(b, t)) by (nonlinear_arith)
            requires b * p <= h < (b + 1) * p, p == 4, 3 * t <= h < 6 * t;
    } else if r <= 11 {
        assert(6 * t <= h < 12 * t) by (nonlinear_arith)
            requires r * t <= h < (r + 1) * t, 6 <= r <= 11, t > 0;
        assert(within_rounding_tolerance(b, t)) by (nonlinear_arith)
            requires b * p <= h < (b + 1) * p, p == 8, 6 * t <= h < 12 * t;
    } else {
        assert(12 * t <= h < 17 * t) by (nonlinear_arith)
            requires r * t <= h < (r + 1) * t, 12 <= r <= 16, t > 0;
        assert(within_rounding_tolerance(b, t)) by (nonlinear_arith)
            requires b * p <= h < (b + 1) * p, p == 16, 12 * t <= h < 17 * t;
    }
}

/// Committing a clock tree raises the flash wait states before the system
/// clock switches over, and switches it exactly once, as the last write.
pub proof fn wait_states_precede_clock_switch(t: ClockTree)
    ensures
        clock_steps_of(t)[0] == ClockStep::SetFlashWaitStates(t.flash_wait_states),
        clock_steps_of(t).last() is SelectSystemClock,
        forall|i: int|
            0 <= i < clock_steps_of(t).len() - 1 ==> !(clock_steps_of(t)[i] is SelectSystemClock),
{
}

fn bus_divider(hclk: u32, target: Option<u32>) -> (r: Option<u32>)
    ensures
        r is Some <==> bus_target_ok(hclk as int, target),
        r is Some ==> r->Some_0 as int == bus_prescaler(hclk as int, target),
{
    match target {
        None => Some(1),
        Some(t) => {
            if t == 0 {
                return None;
            }
            let ratio = hclk / t;
            if ratio < 1 || ratio > 16 {
                None
            } else if ratio == 1 {
                Some(1)
            } else if ratio == 2 {
                Some(2)
            } else if ratio <= 5 {
                Some(4)
            } else if ratio <= 11 {
                Some(8)
            } else {
                Some(16)
            }
        },
    }
}

fn apb_reachable(hclk: u32, target: Option<u32>) -> (r: bool)
    ensures
        r == within_apb_reach(hclk as int, target),
{
    match target {
        None => true,
        Some(t) => t > 0 && hclk / t <= 16,
    }
}

fn ahb_fits_exec(c: &ClockConfig, h: u32) -> (r: bool)
    requires
        h > 0,
    ensures
        r == ahb_fits(c.sysclk_hz as int, h as int, *c),
{
    let hclk = c.sysclk_hz / h;
    apb_reachable(hclk, c.pclk1_hz) && apb_reachable(hclk, c.pclk2_hz)
}

fn ahb_divider(c: &ClockConfig) -> (r: u32)
    ensures
        r as int == ahb_prescaler(*c),
{
    if ahb_fits_exec(c, 1) {
        1
    } else if ahb_fits_exec(c, 2) {
        2
    } else if ahb_fits_exec(c, 4) {
        4
    } else if ahb_fits_exec(c, 8) {
        8
    } else if ahb_fits_exec(c, 16) {
        16
    } else if ahb_fits_exec(c, 64) {
        64
    } else if ahb_fits_exec(c, 128) {
        128
    } else if ahb_fits_exec(c, 256) {
        256
    } else if ahb_fits_exec(c, 512) {
        512
    } else {
        0
    }
}

impl ClockConfig {
    /// Validates the targets and commits them to a frozen clock tree.
    pub fn freeze(&self) -> (r: Result<FrozenClocks, ClockConfigError>)
        ensures
            r is Ok <==> clock_config_legal(*self),
            r is Ok ==> r->Ok_0@ == clock_tree_of(*self),
    {
        let osc = self.oscillator_hz;
        let sys = self.sysclk_hz;
        if osc < HSE_MIN_HZ || osc > HSE_MAX_HZ || sys > SYSCLK_MAX_HZ || sys % osc != 0 {
            return Err(ClockConfigError);
        }
        let mul = sys / osc;
        if mul < 1 || mul > PLL_MUL_MAX {
            return Err(ClockConfigError);
        }
        let hpre = ahb_divider(self);
        if hpre == 0 {
            return Err(ClockConfigError);
        }
        let hclk = sys / hpre;
        let ppre1 = match bus_divider(hclk, self.pclk1_hz) {
            Some(p) => p,
            None => return Err(ClockConfigError),
        };
        let ppre2 = match bus_divider(hclk, self.pclk2_hz) {
            Some(p) => p,
            None => return Err(ClockConfigError),
        };
        let pclk1 = hclk / ppre1;
        let pclk2 = hclk / ppre2;
        if pclk1 > PCLK1_MAX_HZ || pclk2 > PCLK2_MAX_HZ {
            return Err(ClockConfigError);
        }
        let ws: u32 = if sys <= 24_000_000 {
            0
        } else if sys <= 48_000_000 {
            1
        } else {
            2
        };
        let tree = ClockTree {
            sysclk_hz: sys,
            hclk_hz: hclk,
            pclk1_hz: pclk1,
            pclk2_hz: pclk2,
            pll_mul: mul,
            hpre,
            ppre1,
            ppre2,
            flash_wait_states: ws,
        };
        Ok(FrozenClocks { tree })
    }
}

impl FrozenClocks {
    /// The committed frequencies and divider settings.
    pub fn tree(&self) -> (r: ClockTree)
        ensures
            r == self@,
    {
        self.tree
    }

    pub fn sysclk_hz(&self) -> (r: u32)
        ensures
            r == self@.sysclk_hz,
    {
        self.tree.sysclk_hz
    }

    pub fn pclk1_hz(&self) -> (r: u32)
        ensures
            r == self@.pclk1_hz,
    {
        self.tree.pclk1_hz
    }

    pub fn pclk2_hz(&self) -> (r: u32)
        ensures
            r == self@.pclk2_hz,
    {
        self.tree.pclk2_hz
    }

    /// The register writes that put this clock tree into effect, in order.
    pub fn register_steps(&self) -> (r: Vec<ClockStep>)
        ensures
            r@ == clock_steps_of(self@),
    {
        let t = self.tree;
        let mut v: Vec<ClockStep> = Vec::new();
        v.push(ClockStep::SetFlashWaitStates(t.flash_wait_states));
        v.push(ClockStep::EnableOscillator);
        if t.pll_mul == 1 {
            v.push(ClockStep::SetBusPrescalers(t.hpre, t.ppre1, t.ppre2));
            v.push(ClockStep::SelectSystemClock(ClockSource::Oscillator));
        } else {
            v.push(ClockStep::ConfigurePll(t.pll_mul));
            v.push(ClockStep::SetBusPrescalers(t.hpre, t.ppre1, t.ppre2));
            v.push(ClockStep::SelectSystemClock(ClockSource::Pll));
        }
        assert(v@ =~= clock_steps_of(self@));
        v
    }
}

} // verus!
