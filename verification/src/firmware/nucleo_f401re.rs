//! ST NUCLEO-F401RE: the settings the firmware chooses for this board's
//! wiring, and the board's own clock setup.

use vstd::prelude::*;

use super::clock::{ClockSettings, ClockSource};
use super::serial_protocol::SerialSettings;

verus! {

/// The board's oscillator setup: 8 MHz HSE fed from the on-board ST-LINK's
/// MCO (not a crystal), so HSE runs in bypass mode. A PCB fact, not a
/// per-firmware choice.
pub open spec fn board_clock() -> ClockSettings {
    ClockSettings { source: ClockSource::HseBypass { hz: 8_000_000 }, sysclk_hz: None }
}

/// The board's oscillator setup.
pub fn clock_config() -> (settings: ClockSettings)
    ensures
        settings == board_clock(),
{
    ClockSettings { source: ClockSource::HseBypass { hz: 8_000_000 }, sysclk_hz: None }
}

/// Operating settings chosen by the firmware, independently of wiring.
#[derive(Clone, Copy, Debug, PartialEq, Eq, Structural)]
pub struct Settings {
    pub serial1: SerialSettings,
    pub serial2: SerialSettings,
    pub serial3: SerialSettings,
    pub timer1_frequency_hz: u32,
    pub timer2_frequency_hz: u32,
    pub pwm_frequency_hz: u32,
}

} // verus!
