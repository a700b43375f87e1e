//! System (firmware) configuration: which part and Embed profile, which board
//! (if any), which clock, and which default serial routes.

use vstd::prelude::*;

use super::boards::{nucleo_f401re_board, nucleo_f401re_config};
use super::chips::{
    part_stm32f401retx, part_stm32f405rgtx, part_stm32f411ceux, stm32f401retx, stm32f405rgtx,
    stm32f411ceux, Chip, Part, PartView,
};
use super::items::{board_wf, BoardConfig, BoardView, Pin, Protocol};
use crate::text::str_eq;

verus! {

/// A system's default association between one of its board's serial ports
/// and a software protocol: the boot-time routing default, not a permanent
/// binding.
#[derive(Clone, Copy, Debug, PartialEq, Eq, Structural)]
pub struct SerialRoute {
    pub pin: Pin,
    pub protocol: Protocol,
}

/// A system's target sysclk. Which oscillator is used is the board's choice.
#[derive(Clone, Copy, Debug, PartialEq, Eq, Structural)]
pub struct ClockSelection {
    pub target_hz: u32,
}

/// A system configuration, seen as plain values.
pub struct SystemView {
    pub cargo_feature: Seq<char>,
    pub name: Seq<char>,
    pub part: PartView,
    pub embed_profile: Seq<char>,
    pub board: Option<BoardView>,
    pub clock: Option<ClockSelection>,
    pub default_serial_routes: Seq<SerialRoute>,
    pub chip_without_board: Option<Chip>,
}

/// A system declares its chip, through its board when it has one, and its
/// board's lists are ordered sets.
pub open spec fn system_wf(s: SystemView) -> bool {
    &&& (s.board is Some || s.chip_without_board is Some)
    &&& (s.board matches Some(b) ==> board_wf(b))
}

/// The chip a system runs on: its board's chip when it has a board, else
/// the chip it declares without one.
pub open spec fn system_chip(s: SystemView) -> Chip {
    match s.board {
        Some(b) => b.chip,
        None => s.chip_without_board.unwrap(),
    }
}

#[derive(Clone, Debug)]
pub struct SystemConfig {
    pub cargo_feature: &'static str,
    pub name: &'static str,
    pub part: Part,
    pub embed_profile: &'static str,
    pub board: Option<BoardConfig>,
    pub clock: Option<ClockSelection>,
    /// Default serial protocol routes for this system. Empty for systems
    /// with no board, or that assign no port a default role yet.
    pub default_serial_routes: Vec<SerialRoute>,
    /// Only meaningful when `board` is `None`: a system with a board takes
    /// its chip from the board.
    chip_without_board: Option<Chip>,
}

impl View for SystemConfig {
    type V = SystemView;

    closed spec fn view(&self) -> SystemView {
        SystemView {
            cargo_feature: self.cargo_feature@,
            name: self.name@,
            part: self.part@,
            embed_profile: self.embed_profile@,
            board: match self.board {
                Some(b) => Some(b@),
                None => None,
            },
            clock: self.clock,
            default_serial_routes: self.default_serial_routes@,
            chip_without_board: self.chip_without_board,
        }
    }
}

impl SystemConfig {
    /// The board this system has, if any.
    pub fn board_config(&self) -> (board: Option<&BoardConfig>)
        ensures
            match board {
                Some(b) => self@.board == Some(b@),
                None => self@.board is None,
            },
    {
        self.board.as_ref()
    }

    /// This system's default serial routes.
    pub fn routes(&self) -> (routes: &Vec<SerialRoute>)
        ensures
            routes@ == self@.default_serial_routes,
    {
        &self.default_serial_routes
    }

    /// This system's clock selection, if any.
    pub fn clock_selection(&self) -> (clock: Option<ClockSelection>)
        ensures
            clock == self@.clock,
    {
        self.clock
    }

    /// This system's Cargo feature.
    pub fn feature(&self) -> (feature: &'static str)
        ensures
            feature@ == self@.cargo_feature,
    {
        self.cargo_feature
    }

    /// The part this system links for.
    pub fn linked_part(&self) -> (part: &Part)
        ensures
            part@ == self@.part,
    {
        &self.part
    }

    /// The chip this system runs on.
    pub fn chip(&self) -> (chip: Chip)
        requires
            system_wf(self@),
        ensures
            chip == system_chip(self@),
    {
        match &self.board {
            Some(board) => board.chip,
            None => match self.chip_without_board {
                Some(chip) => chip,
                None => {
                    assert(false);
                    Chip::F401
                },
            },
        }
    }
}

/// The NUCLEO-F401RE report prototype.
pub open spec fn nucleo_f401re_system() -> SystemView {
    SystemView {
        cargo_feature: "system-nucleo-f401re"@,
        name: "Nucleo report prototype"@,
        part: stm32f401retx(),
        embed_profile: "nucleo-f401re"@,
        board: Some(nucleo_f401re_board()),
        clock: Some(ClockSelection { target_hz: 84_000_000 }),
        default_serial_routes: seq![
            SerialRoute { pin: Pin::Serial1, protocol: Protocol::Crsf },
            SerialRoute { pin: Pin::Serial2, protocol: Protocol::Msp },
        ],
        chip_without_board: None,
    }
}

/// The minimal board-less system of a chip family.
pub open spec fn default_system(chip: Chip) -> SystemView {
    SystemView {
        cargo_feature: match chip {
            Chip::F401 => "system-default-f401"@,
            Chip::F405 => "system-default-f405"@,
            Chip::F411 => "system-default-f411"@,
        },
        name: match chip {
            Chip::F401 => "Default F401 system"@,
            Chip::F405 => "Default F405 system"@,
            Chip::F411 => "Default F411 system"@,
        },
        part: match chip {
            Chip::F401 => stm32f401retx(),
            Chip::F405 => stm32f405rgtx(),
            Chip::F411 => stm32f411ceux(),
        },
        embed_profile: match chip {
            Chip::F401 => "default-f401"@,
            Chip::F405 => "default-f405"@,
            Chip::F411 => "default-f411"@,
        },
        board: None,
        clock: None,
        default_serial_routes: Seq::empty(),
        chip_without_board: Some(chip),
    }
}

/// Every registered system, in registration order.
pub open spec fn registered_systems() -> Seq<SystemView> {
    seq![
        nucleo_f401re_system(),
        default_system(Chip::F401),
        default_system(Chip::F405),
        default_system(Chip::F411),
    ]
}

fn nucleo_f401re() -> (system: SystemConfig)
    ensures
        system@ == nucleo_f401re_system(),
        system_wf(system@),
{
    let system = SystemConfig {
        cargo_feature: "system-nucleo-f401re",
        name: "Nucleo report prototype",
        part: part_stm32f401retx(),
        embed_profile: "nucleo-f401re",
        board: Some(nucleo_f401re_config()),
        clock: Some(ClockSelection { target_hz: 84_000_000 }),
        default_serial_routes: vec![
            SerialRoute { pin: Pin::Serial1, protocol: Protocol::Crsf },
            SerialRoute { pin: Pin::Serial2, protocol: Protocol::Msp },
        ],
        chip_without_board: None,
    };
    assert(system@.default_serial_routes =~= nucleo_f401re_system().default_serial_routes);
    system
}

fn default_f401() -> (system: SystemConfig)
    ensures
        system@ == default_system(Chip::F401),
        system_wf(system@),
{
    let system = SystemConfig {
        cargo_feature: "system-default-f401",
        name: "Default F401 system",
        part: part_stm32f401retx(),
        embed_profile: "default-f401",
        board: None,
        clock: None,
        default_serial_routes: Vec::new(),
        chip_without_board: Some(Chip::F401),
    };
    assert(system@.default_serial_routes =~= Seq::empty());
    system
}

fn default_f405() -> (system: SystemConfig)
    ensures
        system@ == default_system(Chip::F405),
        system_wf(system@),
{
    let system = SystemConfig {
        cargo_feature: "system-default-f405",
        name: "Default F405 system",
        part: part_stm32f405rgtx(),
        embed_profile: "default-f405",
        board: None,
        clock: None,
        default_serial_routes: Vec::new(),
        chip_without_board: Some(Chip::F405),
    };
    assert(system@.default_serial_routes =~= Seq::empty());
    system
}

fn default_f411() -> (system: SystemConfig)
    ensures
        system@ == default_system(Chip::F411),
        system_wf(system@),
{
    let system = SystemConfig {
        cargo_feature: "system-default-f411",
        name: "Default F411 system",
        part: part_stm32f411ceux(),
        embed_profile: "default-f411",
        board: None,
        clock: None,
        default_serial_routes: Vec::new(),
        chip_without_board: Some(Chip::F411),
    };
    assert(system@.default_serial_routes =~= Seq::empty());
    system
}

/// Builds every registered system, in registration order.
pub fn all() -> (systems: Vec<SystemConfig>)
    ensures
        systems@.len() == registered_systems().len(),
        forall|i: int|
            0 <= i < systems@.len() ==> #[trigger] systems@[i]@ == registered_systems()[i]
                && system_wf(systems@[i]@),
{
    let systems = vec![nucleo_f401re(), default_f401(), default_f405(), default_f411()];
    systems
}

/// Every registered system, in registration order. Used to find which
/// one's Cargo feature is active.
pub fn all_systems() -> (systems: Vec<SystemConfig>)
    ensures
        systems@.len() == registered_systems().len(),
        forall|i: int|
            0 <= i < systems@.len() ==> #[trigger] systems@[i]@ == registered_systems()[i]
                && system_wf(systems@[i]@),
{
    all()
}

/// The first registered system whose Cargo feature is `feature`.
pub open spec fn system_for_feature(feature: Seq<char>) -> Option<SystemView> {
    if exists|i: int|
        0 <= i < registered_systems().len() && #[trigger] registered_systems()[i].cargo_feature
            == feature {
        let i = choose|i: int|
            0 <= i < registered_systems().len() && #[trigger] registered_systems()[i].cargo_feature
                == feature && forall|j: int|
                0 <= j < i ==> registered_systems()[j].cargo_feature != feature;
        Some(registered_systems()[i])
    } else {
        None
    }
}

/// Looks up a registered system by its Cargo feature name.
pub fn system_config(feature: &str) -> (system: Option<SystemConfig>)
    ensures
        match system {
            Some(s) => {
                &&& system_for_feature(feature@) == Some(s@)
                &&& system_wf(s@)
            },
            None => system_for_feature(feature@) is None,
        },
{
    let mut systems = all();
    let n = systems.len();
    let mut i: usize = 0;
    while i < n
        invariant
            n == systems@.len(),
            n == registered_systems().len(),
            i <= n,
            forall|k: int|
                0 <= k < n ==> #[trigger] systems@[k]@ == registered_systems()[k] && system_wf(
                    systems@[k]@,
                ),
            forall|j: int| 0 <= j < i ==> registered_systems()[j].cargo_feature != feature@,
        decreases n - i,
    {
        let candidate = systems[i].cargo_feature;
        assert(systems@[i as int]@ == registered_systems()[i as int]);
        assert(candidate@ == registered_systems()[i as int].cargo_feature);
        if str_eq(candidate, feature) {
            let found = systems.remove(i);
            proof {
                let w = choose|w: int|
                    0 <= w < registered_systems().len()
                        && #[trigger] registered_systems()[w].cargo_feature == feature@
                        && forall|j: int|
                        0 <= j < w ==> registered_systems()[j].cargo_feature != feature@;
                assert(registered_systems()[i as int].cargo_feature == feature@);
                if w < i {
                } else if w > i {
                    assert(registered_systems()[i as int].cargo_feature != feature@);
                }
            }
            return Some(found);
        }
        i = i + 1;
    }
    None
}

} // verus!
