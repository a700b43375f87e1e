//! The named hardware vocabulary a board declares, and board manifests.

use vstd::prelude::*;

use super::chips::Chip;
use crate::text::str_eq;

verus! {

/// Enabled peripheral instances.
#[derive(Clone, Copy, Debug, PartialEq, Eq, PartialOrd, Ord, Structural)]
pub enum Peripheral {
    Usart1,
    Usart2,
    Usart6,
    Tim3,
    Tim4,
    Tim5,
}

/// The position of a peripheral in declaration order (the order of its set).
pub open spec fn peripheral_rank(p: Peripheral) -> int {
    match p {
        Peripheral::Usart1 => 0,
        Peripheral::Usart2 => 1,
        Peripheral::Usart6 => 2,
        Peripheral::Tim3 => 3,
        Peripheral::Tim4 => 4,
        Peripheral::Tim5 => 5,
    }
}

/// The cfg value under which a peripheral is gated.
pub open spec fn peripheral_cfg_name(p: Peripheral) -> Seq<char> {
    match p {
        Peripheral::Usart1 => "usart1"@,
        Peripheral::Usart2 => "usart2"@,
        Peripheral::Usart6 => "usart6"@,
        Peripheral::Tim3 => "tim3"@,
        Peripheral::Tim4 => "tim4"@,
        Peripheral::Tim5 => "tim5"@,
    }
}

impl Peripheral {
    /// The cfg value under which this peripheral is gated.
    pub fn cfg_name(self) -> (name: &'static str)
        ensures
            name@ == peripheral_cfg_name(self),
    {
        match self {
            Peripheral::Usart1 => "usart1",
            Peripheral::Usart2 => "usart2",
            Peripheral::Usart6 => "usart6",
            Peripheral::Tim3 => "tim3",
            Peripheral::Tim4 => "tim4",
            Peripheral::Tim5 => "tim5",
        }
    }
}

/// Named pin/signal mappings a board exposes.
#[derive(Clone, Copy, Debug, PartialEq, Eq, PartialOrd, Ord, Structural)]
pub enum Pin {
    Led1,
    Led2,
    Led3,
    Serial1,
    Serial2,
    Serial3,
    Pwm1,
    Pwm2,
}

/// The position of a pin in declaration order (the order of its set).
pub open spec fn pin_rank(p: Pin) -> int {
    match p {
        Pin::Led1 => 0,
        Pin::Led2 => 1,
        Pin::Led3 => 2,
        Pin::Serial1 => 3,
        Pin::Serial2 => 4,
        Pin::Serial3 => 5,
        Pin::Pwm1 => 6,
        Pin::Pwm2 => 7,
    }
}

/// The cfg value under which a pin is gated.
pub open spec fn pin_cfg_name(p: Pin) -> Seq<char> {
    match p {
        Pin::Led1 => "led1"@,
        Pin::Led2 => "led2"@,
        Pin::Led3 => "led3"@,
        Pin::Serial1 => "serial1"@,
        Pin::Serial2 => "serial2"@,
        Pin::Serial3 => "serial3"@,
        Pin::Pwm1 => "pwm1"@,
        Pin::Pwm2 => "pwm2"@,
    }
}

impl Pin {
    /// The cfg value under which this pin is gated.
    pub fn cfg_name(self) -> (name: &'static str)
        ensures
            name@ == pin_cfg_name(self),
    {
        match self {
            Pin::Led1 => "led1",
            Pin::Led2 => "led2",
            Pin::Led3 => "led3",
            Pin::Serial1 => "serial1",
            Pin::Serial2 => "serial2",
            Pin::Serial3 => "serial3",
            Pin::Pwm1 => "pwm1",
            Pin::Pwm2 => "pwm2",
        }
    }
}

/// A serial protocol's identity, independent of any board or port.
#[derive(Clone, Copy, Debug, PartialEq, Eq, Structural)]
pub enum Protocol {
    Sbus,
    Crsf,
    Msp,
    Mavlink,
}

/// The name of the firmware's serial-protocol variant for a protocol.
pub open spec fn protocol_variant_name(p: Protocol) -> Seq<char> {
    match p {
        Protocol::Sbus => "Sbus"@,
        Protocol::Crsf => "Crsf"@,
        Protocol::Msp => "Msp"@,
        Protocol::Mavlink => "Mavlink"@,
    }
}

impl Protocol {
    /// The name of the firmware's serial-protocol variant for this protocol.
    pub fn variant_name(self) -> (name: &'static str)
        ensures
            name@ == protocol_variant_name(self),
    {
        match self {
            Protocol::Sbus => "Sbus",
            Protocol::Crsf => "Crsf",
            Protocol::Msp => "Msp",
            Protocol::Mavlink => "Mavlink",
        }
    }
}

/// Named DMA mappings a board exposes. No mapping is defined yet, so this
/// type has no values: its invariant cannot hold of any value.
#[derive(Clone, Copy, Debug, PartialEq, Eq, PartialOrd, Ord)]
pub struct Dma {
    none_defined: (),
}

impl Dma {
    #[verifier::type_invariant]
    spec fn inhabited(self) -> bool {
        false
    }
}

/// The cfg value under which a DMA mapping is gated. No mapping exists, so
/// this is never applied to a value that code can hold.
pub open spec fn dma_cfg_name(d: Dma) -> Seq<char> {
    Seq::empty()
}

impl Dma {
    /// The cfg value under which this DMA mapping is gated.
    pub fn cfg_name(self) -> (name: &'static str)
        ensures
            name@ == dma_cfg_name(self),
    {
        proof {
            use_type_invariant(&self);
        }
        ""
    }
}

/// A board manifest, seen as plain values.
pub struct BoardView {
    pub name: Seq<char>,
    pub chip: Chip,
    pub peripherals: Seq<Peripheral>,
    pub pins: Seq<Pin>,
    pub dma: Seq<Dma>,
}

/// A board's peripheral and pin lists behave as ordered sets: each holds
/// every member once, in declaration order.
pub open spec fn board_wf(b: BoardView) -> bool {
    &&& forall|i: int, j: int|
        0 <= i < j < b.peripherals.len() ==> peripheral_rank(b.peripherals[i]) < peripheral_rank(
            b.peripherals[j],
        )
    &&& forall|i: int, j: int|
        0 <= i < j < b.pins.len() ==> pin_rank(b.pins[i]) < pin_rank(b.pins[j])
    &&& b.dma.len() == 0
}

/// Whether a board declares a peripheral with the cfg name `name`.
pub open spec fn board_has_peripheral(b: BoardView, name: Seq<char>) -> bool {
    exists|i: int| 0 <= i < b.peripherals.len() && peripheral_cfg_name(b.peripherals[i]) == name
}

/// Whether a board declares a pin with the cfg name `name`.
pub open spec fn board_has_pin(b: BoardView, name: Seq<char>) -> bool {
    exists|i: int| 0 <= i < b.pins.len() && pin_cfg_name(b.pins[i]) == name
}

/// Whether a board declares a DMA mapping with the cfg name `name`.
pub open spec fn board_has_dma(b: BoardView, name: Seq<char>) -> bool {
    exists|i: int| 0 <= i < b.dma.len() && dma_cfg_name(b.dma[i]) == name
}

/// A physical board: which chip it carries and which peripherals, pins and
/// DMA mappings it enables. Each list is kept as an ordered set.
#[derive(Clone, Debug, PartialEq, Eq)]
pub struct BoardConfig {
    pub name: &'static str,
    pub chip: Chip,
    pub peripherals: Vec<Peripheral>,
    pub pins: Vec<Pin>,
    pub dma: Vec<Dma>,
}

impl View for BoardConfig {
    type V = BoardView;

    open spec fn view(&self) -> BoardView {
        BoardView {
            name: self.name@,
            chip: self.chip,
            peripherals: self.peripherals@,
            pins: self.pins@,
            dma: self.dma@,
        }
    }
}

impl BoardConfig {
    /// Whether this board enables the peripheral whose cfg name is `name`.
    pub fn has_peripheral(&self, name: &str) -> (found: bool)
        ensures
            found == board_has_peripheral(self@, name@),
    {
        let n = self.peripherals.len();
        let mut i: usize = 0;
        while i < n
            invariant
                n == self.peripherals@.len(),
                i <= n,
                forall|j: int| 0 <= j < i ==> peripheral_cfg_name(self.peripherals@[j]) != name@,
            decreases n - i,
        {
            let p = self.peripherals[i];
            if str_eq(p.cfg_name(), name) {
                assert(self@.peripherals[i as int] == p);
                assert(board_has_peripheral(self@, name@));
                return true;
            }
            i = i + 1;
        }
        false
    }

    /// Whether this board exposes the pin whose cfg name is `name`.
    pub fn has_pin(&self, name: &str) -> (found: bool)
        ensures
            found == board_has_pin(self@, name@),
    {
        let n = self.pins.len();
        let mut i: usize = 0;
        while i < n
            invariant
                n == self.pins@.len(),
                i <= n,
                forall|j: int| 0 <= j < i ==> pin_cfg_name(self.pins@[j]) != name@,
            decreases n - i,
        {
            let p = self.pins[i];
            if str_eq(p.cfg_name(), name) {
                assert(self@.pins[i as int] == p);
                assert(board_has_pin(self@, name@));
                return true;
            }
            i = i + 1;
        }
        false
    }

    /// Whether this board exposes the DMA mapping whose cfg name is `name`.
    pub fn has_dma(&self, name: &str) -> (found: bool)
        ensures
            found == board_has_dma(self@, name@),
    {
        let n = self.dma.len();
        let mut i: usize = 0;
        while i < n
            invariant
                n == self.dma@.len(),
                i <= n,
                forall|j: int| 0 <= j < i ==> dma_cfg_name(self.dma@[j]) != name@,
            decreases n - i,
        {
            let d = self.dma[i];
            if str_eq(d.cfg_name(), name) {
                assert(self@.dma[i as int] == d);
                assert(board_has_dma(self@, name@));
                return true;
            }
            i = i + 1;
        }
        false
    }
}

} // verus!
