//! MCU clock configuration from the active system's clock selection,
//! validated against the chip's maximum sysclk.

use vstd::prelude::*;

use super::nucleo_f401re::{board_clock, clock_config};
use super::routing::active_system;
use crate::catalog::chips::{chip_max_sysclk_hz, Chip};
use crate::catalog::systems::{SystemConfig, SystemView};

verus! {

/// The oscillator the system clock is derived from.
#[derive(Clone, Copy, Debug, PartialEq, Eq, Structural)]
pub enum ClockSource {
    /// The internal RC oscillator.
    Hsi,
    /// An external clock of `hz` driven into HSE, in bypass mode.
    HseBypass { hz: u32 },
}

/// What the clock tree is configured with: a source and, optionally, a
/// target sysclk (without one, sysclk runs at the source's frequency).
#[derive(Clone, Copy, Debug, PartialEq, Eq, Structural)]
pub struct ClockSettings {
    pub source: ClockSource,
    pub sysclk_hz: Option<u32>,
}

/// The bare internal-oscillator configuration.
pub open spec fn hsi_settings() -> ClockSettings {
    ClockSettings { source: ClockSource::Hsi, sysclk_hz: None }
}

/// The bare internal-oscillator configuration.
pub fn hsi() -> (settings: ClockSettings)
    ensures
        settings == hsi_settings(),
{
    ClockSettings { source: ClockSource::Hsi, sysclk_hz: None }
}

/// Why a clock selection was refused.
#[derive(Clone, Copy, Debug, PartialEq, Eq, Structural)]
pub enum ClockError {
    /// The selected target exceeds the chip's maximum sysclk.
    TargetExceedsMax { target_hz: u32, max_hz: u32 },
}

/// The clock configuration of a build: bare HSI without a clock selection;
/// otherwise the selected target, refused above the chip's maximum, from
/// the board's own clock setup when the system has a board and from HSI
/// when it has none.
pub open spec fn clock_plan(chip: Chip, system: Option<SystemView>) -> Result<ClockSettings, ClockError> {
    let selection = match system {
        Some(s) => s.clock,
        None => None,
    };
    match selection {
        None => Ok(hsi_settings()),
        Some(c) => if c.target_hz > chip_max_sysclk_hz(chip) {
            Err(ClockError::TargetExceedsMax { target_hz: c.target_hz, max_hz: chip_max_sysclk_hz(chip) })
        } else {
            let base = if system.unwrap().board is Some {
                board_clock()
            } else {
                hsi_settings()
            };
            Ok(ClockSettings { sysclk_hz: Some(c.target_hz), ..base })
        },
    }
}

/// The clock configuration for `chip` and the active system, if any.
pub fn config(chip: Chip, system: Option<&SystemConfig>) -> (settings: Result<ClockSettings, ClockError>)
    ensures
        settings == clock_plan(chip, active_system(system)),
{
    let max_hz = chip.config().max_sysclk_hz;
    let selection = match system {
        Some(s) => s.clock_selection(),
        None => None,
    };
    match selection {
        None => Ok(hsi()),
        Some(c) => {
            if c.target_hz > max_hz {
                return Err(ClockError::TargetExceedsMax { target_hz: c.target_hz, max_hz });
            }
            let has_board = match system {
                Some(s) => s.board_config().is_some(),
                None => false,
            };
            let base = if has_board {
                clock_config()
            } else {
                hsi()
            };
            Ok(ClockSettings { sysclk_hz: Some(c.target_hz), ..base })
        },
    }
}

} // verus!
