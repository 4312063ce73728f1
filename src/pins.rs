use vstd::prelude::*;

verus! {

/// Number of pins in one GPIO port.
pub const PINS_PER_PORT: u8 = 16;

#[derive(Clone, Copy, Debug, PartialEq, Eq, Structural)]
pub enum Port {
    A,
    B,
    C,
}

#[derive(Clone, Copy, Debug, PartialEq, Eq, Structural)]
pub enum OutputType {
    PushPull,
    OpenDrain,
}

/// The electrical role of a pin.
#[derive(Clone, Copy, Debug, PartialEq, Eq, Structural)]
pub enum PinMode {
    Output(OutputType),
    Analog,
    /// Alternate function number, with the output driver it uses.
    Alternate(u8, OutputType),
}

/// Names one physical pin.
#[derive(Clone, Copy, Debug, PartialEq, Eq, Structural)]
pub struct PinId {
    pub port: Port,
    pub index: u8,
}

/// The requested alternate function is not wired to that pin.
#[derive(Clone, Copy, Debug, PartialEq, Eq, Structural)]
pub struct UnsupportedAlternateFunction;

/// A pin in its reset state. It cannot be copied: committing it to a mode
/// consumes it.
#[derive(Debug)]
pub struct Pin {
    id: PinId,
}

/// A pin whose mode is fixed for as long as the value lives.
#[derive(Debug)]
pub struct ConfiguredPin {
    id: PinId,
    mode: PinMode,
}

/// What a port's pin set holds: its port, and for each pin whether it is
/// still there to be taken.
pub struct PortState {
    pub port: Port,
    pub available: Seq<bool>,
}

/// The pins of one GPIO port that have not been handed out yet.
#[derive(Debug)]
pub struct PortPins {
    port: Port,
    available: Vec<bool>,
}

/// The GPIO register fields of one pin.
#[derive(Clone, Copy, Debug, PartialEq, Eq, Structural)]
pub struct PinRegisters {
    pub moder: u8,
    pub otyper: u8,
    pub afr: u8,
}

impl View for Pin {
    type V = PinId;

    closed spec fn view(&self) -> PinId {
        self.id
    }
}

impl View for ConfiguredPin {
    type V = (PinId, PinMode);

    closed spec fn view(&self) -> (PinId, PinMode) {
        (self.id, self.mode)
    }
}

impl View for PortPins {
    type V = PortState;

    closed spec fn view(&self) -> PortState {
        PortState { port: self.port, available: self.available@ }
    }
}

/// The alternate functions that the STM32F303xC wires to each pin of ports
/// A, B and C; a pin outside those ports' sixteen has none.
pub open spec fn af_supported(id: PinId, af: u8) -> bool {
    match id.port {
        Port::A => {
            if id.index == 0 {
                af == 1 || af == 3 || af == 7 || af == 8 || af == 9 || af == 10 || af == 15
            } else if id.index == 1 {
                af == 0 || af == 1 || af == 3 || af == 7 || af == 9 || af == 15
            } else if id.index == 2 {
                af == 1 || af == 3 || af == 7 || af == 8 || af == 9 || af == 15
            } else if id.index == 3 {
                af == 1 || af == 3 || af == 7 || af == 9 || af == 15
            } else if id.index == 4 {
                af == 2 || af == 3 || af == 5 || af == 6 || af == 7 || af == 15
            } else if id.index == 5 {
                af == 1 || af == 3 || af == 5 || af == 15
            } else if id.index == 6 {
                af == 1 || af == 2 || af == 3 || af == 4 || af == 5 || af == 6 || af == 8 || af == 15
            } else if id.index == 7 {
                af == 1 || af == 2 || af == 3 || af == 4 || af == 5 || af == 6 || af == 8 || af == 15
            } else if id.index == 8 {
                af == 0 || af == 4 || af == 5 || af == 6 || af == 7 || af == 8 || af == 10 || af == 15
            } else if id.index == 9 {
                af == 3 || af == 4 || af == 5 || af == 6 || af == 7 || af == 8 || af == 9 || af == 10 || af == 15
            } else if id.index == 10 {
                af == 1 || af == 3 || af == 4 || af == 6 || af == 7 || af == 8 || af == 10 || af == 11 || af == 15
            } else if id.index == 11 {
                af == 6 || af == 7 || af == 8 || af == 9 || af == 10 || af == 11 || af == 12 || af == 14 || af == 15
            } else if id.index == 12 {
                af == 1 || af == 6 || af == 7 || af == 8 || af == 9 || af == 10 || af == 11 || af == 14 || af == 15
            } else if id.index == 13 {
                af == 0 || af == 1 || af == 3 || af == 5 || af == 7 || af == 10 || af == 15
            } else if id.index == 14 {
                af == 0 || af == 3 || af == 4 || af == 5 || af == 6 || af == 7 || af == 15
            } else if id.index == 15 {
                af == 0 || af == 1 || af == 2 || af == 4 || af == 5 || af == 6 || af == 7 || af == 9 || af == 15
            } else {
                false
            }
        },
        Port::B => {
            if id.index == 0 {
                af == 2 || af == 3 || af == 4 || af == 6 || af == 15
            } else if id.index == 1 {
                af == 2 || af == 3 || af == 4 || af == 6 || af == 8 || af == 15
            } else if id.index == 2 {
                af == 3 || af == 15
            } else if id.index == 3 {
                af == 0 || af == 1 || af == 2 || af == 3 || af == 4 || af == 5 || af == 6 || af == 7 || af == 10 || af == 15
            } else if id.index == 4 {
                af == 0 || af == 1 || af == 2 || af == 3 || af == 4 || af == 5 || af == 6 || af == 7 || af == 10 || af == 15
            } else if id.index == 5 {
                af == 1 || af == 2 || af == 3 || af == 4 || af == 5 || af == 6 || af == 7 || af == 10 || af == 15
            } else if id.index == 6 {
                af == 1 || af == 2 || af == 3 || af == 4 || af == 5 || af == 6 || af == 7 || af == 10 || af == 15
            } else if id.index == 7 {
                af == 1 || af == 2 || af == 3 || af == 4 || af == 5 || af == 7 || af == 10 || af == 15
            } else if id.index == 8 {
                af == 1 || af == 2 || af == 3 || af == 4 || af == 8 || af == 9 || af == 10 || af == 12 || af == 15
            } else if id.index == 9 {
                af == 1 || af == 2 || af == 4 || af == 6 || af == 8 || af == 9 || af == 10 || af == 15
            } else if id.index == 10 {
                af == 1 || af == 3 || af == 7 || af == 15
            } else if id.index == 11 {
                af == 1 || af == 3 || af == 7 || af == 15
            } else if id.index == 12 {
                af == 3 || af == 4 || af == 5 || af == 6 || af == 7 || af == 15
            } else if id.index == 13 {
                af == 3 || af == 5 || af == 6 || af == 7 || af == 15
            } else if id.index == 14 {
                af == 1 || af == 3 || af == 5 || af == 6 || af == 7 || af == 15
            } else if id.index == 15 {
                af == 0 || af == 1 || af == 2 || af == 4 || af == 5 || af == 15
            } else {
                false
            }
        },
        Port::C => {
            if id.index == 0 {
                af == 1
            } else if id.index == 1 {
                af == 1
            } else if id.index == 2 {
                af == 1 || af == 3
            } else if id.index == 3 {
                af == 1 || af == 6
            } else if id.index == 4 {
                af == 1 || af == 7
            } else if id.index == 5 {
                af == 1 || af == 3 || af == 7
            } else if id.index == 6 {
                af == 1 || af == 2 || af == 4 || af == 6 || af == 7
            } else if id.index == 7 {
                af == 1 || af == 2 || af == 4 || af == 6 || af == 7
            } else if id.index == 8 {
                af == 1 || af == 2 || af == 4 || af == 7
            } else if id.index == 9 {
                af == 1 || af == 2 || af == 4 || af == 5 || af == 6
            } else if id.index == 10 {
                af == 1 || af == 4 || af == 5 || af == 6 || af == 7
            } else if id.index == 11 {
                af == 1 || af == 4 || af == 5 || af == 6 || af == 7
            } else if id.index == 12 {
                af == 1 || af == 4 || af == 5 || af == 6 || af == 7
            } else if id.index == 13 {
                af == 4
            } else if id.index == 14 {
                false
            } else if id.index == 15 {
                false
            } else {
                false
            }
        },
    }
}

/// A mode can be given to a pin unless it is an alternate function that the
/// pin is not wired to.
pub open spec fn mode_legal(id: PinId, mode: PinMode) -> bool {
    match mode {
        PinMode::Alternate(af, _) => af_supported(id, af),
        _ => true,
    }
}

/// Whether `index` can be taken from a port in state `s`.
pub open spec fn can_take(s: PortState, index: u8) -> bool {
    index < s.available.len() && s.available[index as int]
}

/// The port state after an attempt to take `index`.
pub open spec fn after_take(s: PortState, index: u8) -> PortState {
    if can_take(s, index) {
        PortState { port: s.port, available: s.available.update(index as int, false) }
    } else {
        s
    }
}

pub open spec fn registers_of(mode: PinMode) -> PinRegisters {
    match mode {
        PinMode::Output(OutputType::PushPull) => PinRegisters { moder: 1, otyper: 0, afr: 0 },
        PinMode::Output(OutputType::OpenDrain) => PinRegisters { moder: 1, otyper: 1, afr: 0 },
        PinMode::Analog => PinRegisters { moder: 3, otyper: 0, afr: 0 },
        PinMode::Alternate(af, OutputType::PushPull) => PinRegisters { moder: 2, otyper: 0, afr: af },
        PinMode::Alternate(af, OutputType::OpenDrain) => PinRegisters { moder: 2, otyper: 1, afr: af },
    }
}

/// Whether alternate function `af` is wired to pin `id`.
pub fn alternate_function_supported(id: PinId, af: u8) -> (r: bool)
    ensures
        r == af_supported(id, af),
{
    match id.port {
        Port::A => {
            if id.index == 0 {
                af == 1 || af == 3 || af == 7 || af == 8 || af == 9 || af == 10 || af == 15
            } else if id.index == 1 {
                af == 0 || af == 1 || af == 3 || af == 7 || af == 9 || af == 15
            } else if id.index == 2 {
                af == 1 || af == 3 || af == 7 || af == 8 || af == 9 || af == 15
            } else if id.index == 3 {
                af == 1 || af == 3 || af == 7 || af == 9 || af == 15
            } else if id.index == 4 {
                af == 2 || af == 3 || af == 5 || af == 6 || af == 7 || af == 15
            } else if id.index == 5 {
                af == 1 || af == 3 || af == 5 || af == 15
            } else if id.index == 6 {
                af == 1 || af == 2 || af == 3 || af == 4 || af == 5 || af == 6 || af == 8 || af == 15
            } else if id.index == 7 {
                af == 1 || af == 2 || af == 3 || af == 4 || af == 5 || af == 6 || af == 8 || af == 15
            } else if id.index == 8 {
                af == 0 || af == 4 || af == 5 || af == 6 || af == 7 || af == 8 || af == 10 || af == 15
            } else if id.index == 9 {
                af == 3 || af == 4 || af == 5 || af == 6 || af == 7 || af == 8 || af == 9 || af == 10 || af == 15
            } else if id.index == 10 {
                af == 1 || af == 3 || af == 4 || af == 6 || af == 7 || af == 8 || af == 10 || af == 11 || af == 15
            } else if id.index == 11 {
                af == 6 || af == 7 || af == 8 || af == 9 || af == 10 || af == 11 || af == 12 || af == 14 || af == 15
            } else if id.index == 12 {
                af == 1 || af == 6 || af == 7 || af == 8 || af == 9 || af == 10 || af == 11 || af == 14 || af == 15
            } else if id.index == 13 {
                af == 0 || af == 1 || af == 3 || af == 5 || af == 7 || af == 10 || af == 15
            } else if id.index == 14 {
                af == 0 || af == 3 || af == 4 || af == 5 || af == 6 || af == 7 || af == 15
            } else if id.index == 15 {
                af == 0 || af == 1 || af == 2 || af == 4 || af == 5 || af == 6 || af == 7 || af == 9 || af == 15
            } else {
                false
            }
        },
        Port::B => {
            if id.index == 0 {
                af == 2 || af == 3 || af == 4 || af == 6 || af == 15
            } else if id.index == 1 {
                af == 2 || af == 3 || af == 4 || af == 6 || af == 8 || af == 15
            } else if id.index == 2 {
                af == 3 || af == 15
            } else if id.index == 3 {
                af == 0 || af == 1 || af == 2 || af == 3 || af == 4 || af == 5 || af == 6 || af == 7 || af == 10 || af == 15
            } else if id.index == 4 {
                af == 0 || af == 1 || af == 2 || af == 3 || af == 4 || af == 5 || af == 6 || af == 7 || af == 10 || af == 15
            } else if id.index == 5 {
                af == 1 || af == 2 || af == 3 || af == 4 || af == 5 || af == 6 || af == 7 || af == 10 || af == 15
            } else if id.index == 6 {
                af == 1 || af == 2 || af == 3 || af == 4 || af == 5 || af == 6 || af == 7 || af == 10 || af == 15
            } else if id.index == 7 {
                af == 1 || af == 2 || af == 3 || af == 4 || af == 5 || af == 7 || af == 10 || af == 15
            } else if id.index == 8 {
                af == 1 || af == 2 || af == 3 || af == 4 || af == 8 || af == 9 || af == 10 || af == 12 || af == 15
            } else if id.index == 9 {
                af == 1 || af == 2 || af == 4 || af == 6 || af == 8 || af == 9 || af == 10 || af == 15
            } else if id.index == 10 {
                af == 1 || af == 3 || af == 7 || af == 15
            } else if id.index == 11 {
                af == 1 || af == 3 || af == 7 || af == 15
            } else if id.index == 12 {
                af == 3 || af == 4 || af == 5 || af == 6 || af == 7 || af == 15
            } else if id.index == 13 {
                af == 3 || af == 5 || af == 6 || af == 7 || af == 15
            } else if id.index == 14 {
                af == 1 || af == 3 || af == 5 || af == 6 || af == 7 || af == 15
            } else if id.index == 15 {
                af == 0 || af == 1 || af == 2 || af == 4 || af == 5 || af == 15
            } else {
                false
            }
        },
        Port::C => {
            if id.index == 0 {
                af == 1
            } else if id.index == 1 {
                af == 1
            } else if id.index == 2 {
                af == 1 || af == 3
            } else if id.index == 3 {
                af == 1 || af == 6
            } else if id.index == 4 {
                af == 1 || af == 7
            } else if id.index == 5 {
                af == 1 || af == 3 || af == 7
            } else if id.index == 6 {
                af == 1 || af == 2 || af == 4 || af == 6 || af == 7
            } else if id.index == 7 {
                af == 1 || af == 2 || af == 4 || af == 6 || af == 7
            } else if id.index == 8 {
                af == 1 || af == 2 || af == 4 || af == 7
            } else if id.index == 9 {
                af == 1 || af == 2 || af == 4 || af == 5 || af == 6
            } else if id.index == 10 {
                af == 1 || af == 4 || af == 5 || af == 6 || af == 7
            } else if id.index == 11 {
                af == 1 || af == 4 || af == 5 || af == 6 || af == 7
            } else if id.index == 12 {
                af == 1 || af == 4 || af == 5 || af == 6 || af == 7
            } else if id.index == 13 {
                af == 4
            } else if id.index == 14 {
                false
            } else if id.index == 15 {
                false
            } else {
                false
            }
        },
    }
}

impl PortPins {
    pub closed spec fn wf(&self) -> bool {
        self.available@.len() == PINS_PER_PORT
    }

    /// All pins of `port`, each still in its reset state.
    pub fn split(port: Port) -> (r: PortPins)
        ensures
            r.wf(),
            r@.port == port,
            r@.available.len() == PINS_PER_PORT,
            forall|i: int| 0 <= i < PINS_PER_PORT ==> r@.available[i],
    {
        let mut available: Vec<bool> = Vec::new();
        let mut i: u8 = 0;
        while i < PINS_PER_PORT
            invariant
                i <= PINS_PER_PORT,
                available@.len() == i,
                forall|j: int| 0 <= j < i ==> available@[j],
            decreases PINS_PER_PORT - i,
        {
            available.push(true);
            i = i + 1;
        }
        PortPins { port, available }
    }

    /// Hands out pin `index` of the port, once: afterwards it is gone.
    pub fn take(&mut self, index: u8) -> (r: Option<Pin>)
        requires
            old(self).wf(),
        ensures
            final(self).wf(),
            final(self)@ == after_take(old(self)@, index),
            r is Some <==> can_take(old(self)@, index),
            r is Some ==> r->Some_0@ == (PinId { port: old(self)@.port, index }),
    {
        if index >= PINS_PER_PORT || !self.available[index as usize] {
            return None;
        }
        self.available.set(index as usize, false);
        proof {
            assert(self@.available =~= old(self)@.available.update(index as int, false));
        }
        Some(Pin { id: PinId { port: self.port, index } })
    }
}

impl Pin {
    pub fn id(&self) -> (r: PinId)
        ensures
            r == self@,
    {
        self.id
    }

    /// Commits the pin to `mode`, consuming the reset-state value.
    pub fn into_mode(self, mode: PinMode) -> (r: Result<ConfiguredPin, UnsupportedAlternateFunction>)
        ensures
            r is Ok <==> mode_legal(self@, mode),
            r is Ok ==> r->Ok_0@ == (self@, mode),
    {
        if let PinMode::Alternate(af, _) = mode {
            if !alternate_function_supported(self.id, af) {
                return Err(UnsupportedAlternateFunction);
            }
        }
        Ok(ConfiguredPin { id: self.id, mode })
    }
}

impl ConfiguredPin {
    pub fn id(&self) -> (r: PinId)
        ensures
            r == self@.0,
    {
        self.id
    }

    pub fn mode(&self) -> (r: PinMode)
        ensures
            r == self@.1,
    {
        self.mode
    }

    /// Gives the pin another mode, consuming it.
    pub fn into_mode(self, mode: PinMode) -> (r: Result<ConfiguredPin, UnsupportedAlternateFunction>)
        ensures
            r is Ok <==> mode_legal(self@.0, mode),
            r is Ok ==> r->Ok_0@ == (self@.0, mode),
    {
        Pin { id: self.id }.into_mode(mode)
    }

    /// The mode, output-type and alternate-function register fields that put
    /// this pin into its mode.
    pub fn registers(&self) -> (r: PinRegisters)
        ensures
            r == registers_of(self@.1),
    {
        match self.mode {
            PinMode::Output(OutputType::PushPull) => PinRegisters { moder: 1, otyper: 0, afr: 0 },
            PinMode::Output(OutputType::OpenDrain) => PinRegisters { moder: 1, otyper: 1, afr: 0 },
            PinMode::Analog => PinRegisters { moder: 3, otyper: 0, afr: 0 },
            PinMode::Alternate(af, OutputType::PushPull) => PinRegisters { moder: 2, otyper: 0, afr: af },
            PinMode::Alternate(af, OutputType::OpenDrain) => PinRegisters { moder: 2, otyper: 1, afr: af },
        }
    }
}

/// The pins of every port that have not been handed out yet.
#[derive(Debug)]
pub struct Ports {
    a: PortPins,
    b: PortPins,
    c: PortPins,
}

/// Every pin of every port.
pub open spec fn all_pins() -> Set<PinId> {
    Set::new(|p: PinId| p.index < PINS_PER_PORT)
}

impl Ports {
    pub closed spec fn port_state(&self, port: Port) -> PortState {
        match port {
            Port::A => self.a@,
            Port::B => self.b@,
            Port::C => self.c@,
        }
    }

    pub closed spec fn wf(&self) -> bool {
        &&& self.a.wf() && self.a@.port == Port::A
        &&& self.b.wf() && self.b@.port == Port::B
        &&& self.c.wf() && self.c@.port == Port::C
    }

    /// The pins that can still be taken.
    pub closed spec fn available(&self) -> Set<PinId> {
        Set::new(|p: PinId| can_take(self.port_state(p.port), p.index))
    }

    /// Every port with all of its pins in the reset state.
    pub fn split_all() -> (r: Ports)
        ensures
            r.wf(),
            r.available() == all_pins(),
    {
        let r = Ports { a: PortPins::split(Port::A), b: PortPins::split(Port::B), c: PortPins::split(Port::C) };
        assert(r.available() =~= all_pins());
        r
    }

    /// Hands out pin `id`, once: afterwards it is gone.
    pub fn take(&mut self, id: PinId) -> (r: Option<Pin>)
        requires
            old(self).wf(),
        ensures
            final(self).wf(),
            final(self).available() == old(self).available().remove(id),
            r is Some <==> old(self).available().contains(id),
            r is Some ==> r->Some_0@ == id,
    {
        let r = match id.port {
            Port::A => self.a.take(id.index),
            Port::B => self.b.take(id.index),
            Port::C => self.c.take(id.index),
        };
        assert(self.available() =~= old(self).available().remove(id));
        r
    }
}

/// A pin can be taken from its port once: after it has been handed out, the
/// port no longer holds it, and taking it again fails.
pub proof fn pin_taken_once(s: PortState, index: u8)
    requires
        can_take(s, index),
    ensures
        !can_take(after_take(s, index), index),
        after_take(s, index).port == s.port,
        forall|j: u8| j != index ==> can_take(after_take(s, index), j) == can_take(s, j),
{
}

} // verus!
