//! Chip-family facts: coarse data shared by every system that uses a chip,
//! and the exact MCU part records that systems select for linking.

use vstd::prelude::*;

use crate::text::str_eq;

verus! {

/// The supported chip families.
#[derive(Clone, Copy, Debug, PartialEq, Eq, Structural)]
pub enum Chip {
    F401,
    F405,
    F411,
}

/// The Cargo feature that selects a chip family.
pub open spec fn chip_feature(chip: Chip) -> Seq<char> {
    match chip {
        Chip::F401 => "f401"@,
        Chip::F405 => "f405"@,
        Chip::F411 => "f411"@,
    }
}

/// The chip family whose Cargo feature is `feature`, if any.
pub open spec fn chip_for_feature(feature: Seq<char>) -> Option<Chip> {
    if feature == chip_feature(Chip::F401) {
        Some(Chip::F401)
    } else if feature == chip_feature(Chip::F405) {
        Some(Chip::F405)
    } else if feature == chip_feature(Chip::F411) {
        Some(Chip::F411)
    } else {
        None
    }
}

/// The highest system clock each chip family runs at.
pub open spec fn chip_max_sysclk_hz(chip: Chip) -> u32 {
    match chip {
        Chip::F401 => 84_000_000,
        Chip::F405 => 168_000_000,
        Chip::F411 => 100_000_000,
    }
}

/// The PAC feature each chip family compiles with.
pub open spec fn chip_pac_feature(chip: Chip) -> Seq<char> {
    match chip {
        Chip::F401 => "stm32f4xx-hal/stm32f401"@,
        Chip::F405 => "stm32f4xx-hal/stm32f405"@,
        Chip::F411 => "stm32f4xx-hal/stm32f411"@,
    }
}

/// Registration/linker metadata for one exact MCU part, seen as plain values.
pub struct PartView {
    pub name: Seq<char>,
    pub probe_chip: Seq<char>,
    pub flash_kib: u32,
    pub ram_kib: u32,
    pub ccm_kib: Option<u32>,
}

/// The STM32F401RETx part record.
pub open spec fn stm32f401retx() -> PartView {
    PartView {
        name: "STM32F401RETx"@,
        probe_chip: "STM32F401RE"@,
        flash_kib: 512,
        ram_kib: 96,
        ccm_kib: None,
    }
}

/// The STM32F405RGTx part record; its CCM is a separate region from RAM.
pub open spec fn stm32f405rgtx() -> PartView {
    PartView {
        name: "STM32F405RGTx"@,
        probe_chip: "STM32F405RGTx"@,
        flash_kib: 1024,
        ram_kib: 128,
        ccm_kib: Some(64),
    }
}

/// The STM32F411CEUx part record.
pub open spec fn stm32f411ceux() -> PartView {
    PartView {
        name: "STM32F411CEUx"@,
        probe_chip: "STM32F411CEUx"@,
        flash_kib: 512,
        ram_kib: 128,
        ccm_kib: None,
    }
}

/// The part a chip family links for when no system picks one.
pub open spec fn chip_default_part(chip: Chip) -> PartView {
    match chip {
        Chip::F401 => stm32f401retx(),
        Chip::F405 => stm32f405rgtx(),
        Chip::F411 => stm32f411ceux(),
    }
}

/// Registration/linker metadata for one exact MCU part. Mechanical build
/// metadata, not a capability authority.
#[derive(Clone, Copy, Debug, PartialEq, Eq)]
pub struct Part {
    pub name: &'static str,
    pub probe_chip: &'static str,
    pub flash_kib: u32,
    pub ram_kib: u32,
    pub ccm_kib: Option<u32>,
}

impl View for Part {
    type V = PartView;

    open spec fn view(&self) -> PartView {
        PartView {
            name: self.name@,
            probe_chip: self.probe_chip@,
            flash_kib: self.flash_kib,
            ram_kib: self.ram_kib,
            ccm_kib: self.ccm_kib,
        }
    }
}

/// Chip-family facts, seen as plain values.
pub struct ChipConfigView {
    pub chip: Chip,
    pub pac_feature: Seq<char>,
    pub max_sysclk_hz: u32,
    pub default_part: PartView,
}

/// The facts recorded for a chip family.
pub open spec fn chip_config(chip: Chip) -> ChipConfigView {
    ChipConfigView {
        chip: chip,
        pac_feature: chip_pac_feature(chip),
        max_sysclk_hz: chip_max_sysclk_hz(chip),
        default_part: chip_default_part(chip),
    }
}

/// Coarse facts of a chip family: its PAC feature, maximum system clock,
/// and the part it links for when no system picks one.
#[derive(Clone, Debug, PartialEq, Eq)]
pub struct ChipConfig {
    pub chip: Chip,
    pub pac_feature: &'static str,
    pub max_sysclk_hz: u32,
    pub default_part: Part,
}

impl View for ChipConfig {
    type V = ChipConfigView;

    open spec fn view(&self) -> ChipConfigView {
        ChipConfigView {
            chip: self.chip,
            pac_feature: self.pac_feature@,
            max_sysclk_hz: self.max_sysclk_hz,
            default_part: self.default_part@,
        }
    }
}

/// The STM32F401RETx part record.
pub(crate) fn part_stm32f401retx() -> (part: Part)
    ensures
        part@ == stm32f401retx(),
{
    Part {
        name: "STM32F401RETx",
        probe_chip: "STM32F401RE",
        flash_kib: 512,
        ram_kib: 96,
        ccm_kib: None,
    }
}

/// The STM32F405RGTx part record.
pub(crate) fn part_stm32f405rgtx() -> (part: Part)
    ensures
        part@ == stm32f405rgtx(),
{
    Part {
        name: "STM32F405RGTx",
        probe_chip: "STM32F405RGTx",
        flash_kib: 1024,
        // SRAM1 + SRAM2; CCM is a separate address region, not contiguous RAM.
        ram_kib: 128,
        ccm_kib: Some(64),
    }
}

/// The STM32F411CEUx part record.
pub(crate) fn part_stm32f411ceux() -> (part: Part)
    ensures
        part@ == stm32f411ceux(),
{
    Part {
        name: "STM32F411CEUx",
        probe_chip: "STM32F411CEUx",
        flash_kib: 512,
        ram_kib: 128,
        ccm_kib: None,
    }
}

impl Chip {
    /// Every chip family, in declaration order.
    pub const ALL: [Chip; 3] = [Chip::F401, Chip::F405, Chip::F411];

    /// The Cargo feature that selects this chip family.
    pub fn cargo_feature(self) -> (feature: &'static str)
        ensures
            feature@ == chip_feature(self),
    {
        match self {
            Chip::F401 => "f401",
            Chip::F405 => "f405",
            Chip::F411 => "f411",
        }
    }

    /// The chip family whose Cargo feature is `feature`, or `None` when no
    /// family has that feature.
    pub fn from_cargo_feature(feature: &str) -> (chip: Option<Chip>)
        ensures
            chip == chip_for_feature(feature@),
    {
        let all = Chip::ALL;
        let mut i: usize = 0;
        while i < 3
            invariant
                i <= 3,
                all@ == seq![Chip::F401, Chip::F405, Chip::F411],
                forall|j: int| 0 <= j < i ==> feature@ != chip_feature(#[trigger] all@[j]),
            decreases 3 - i,
        {
            let chip = all[i];
            if str_eq(chip.cargo_feature(), feature) {
                return Some(chip);
            }
            i = i + 1;
        }
        None
    }

    /// The facts recorded for this chip family.
    pub fn config(self) -> (config: ChipConfig)
        ensures
            config@ == chip_config(self),
    {
        match self {
            Chip::F401 => ChipConfig {
                chip: Chip::F401,
                pac_feature: "stm32f4xx-hal/stm32f401",
                max_sysclk_hz: 84_000_000,
                default_part: part_stm32f401retx(),
            },
            Chip::F405 => ChipConfig {
                chip: Chip::F405,
                pac_feature: "stm32f4xx-hal/stm32f405",
                max_sysclk_hz: 168_000_000,
                default_part: part_stm32f405rgtx(),
            },
            Chip::F411 => ChipConfig {
                chip: Chip::F411,
                pac_feature: "stm32f4xx-hal/stm32f411",
                max_sysclk_hz: 100_000_000,
                default_part: part_stm32f411ceux(),
            },
        }
    }
}

} // verus!
