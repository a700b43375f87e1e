//! What boot does for a build: which board capabilities are wired, which
//! settings each peripheral starts with, which tasks start, and whether the
//! report route is enabled; refusing a build whose selection cannot work.

use vstd::prelude::*;

use super::clock::{clock_plan, config, ClockError, ClockSettings};
use super::nucleo_f401re::Settings;
use super::routing::{default_routes, default_routing, active_system, PortRoutes, RoutingError};
use super::serial_protocol::{hal_default_settings, protocol_settings, resolve, SerialProtocol, SerialSettings};
use crate::catalog::chips::Chip;
use crate::catalog::items::{board_has_peripheral, board_has_pin, BoardView};
use crate::catalog::systems::{SystemConfig, SystemView};
use crate::text::str_eq;

verus! {

/// Why a build's selection was refused at boot planning.
#[derive(Clone, Copy, Debug, PartialEq, Eq, Structural)]
pub enum BootError {
    /// The report feature is selected without the Nucleo report prototype.
    ReportNeedsNucleo,
    /// The report feature is selected but the board lacks TIM3.
    ReportNeedsTim3,
    /// The clock selection is refused.
    Clock(ClockError),
    /// The default routes are refused.
    Routing(RoutingError),
}

/// The boot decisions of a build.
#[derive(Clone, Copy, Debug, PartialEq, Eq, Structural)]
pub struct BootPlan {
    /// The clock configuration.
    pub clock: ClockSettings,
    /// Whether the board's hardware is built (it has LED 1 or TIM3).
    pub builds_board: bool,
    /// The settings the board's hardware is built with.
    pub settings: Settings,
    /// Whether the LED blink task starts (the board has LED 1).
    pub spawn_blink: bool,
    /// Whether the PWM start task runs (the board has TIM4).
    pub spawn_start_pwm: bool,
    /// Whether TIM3's interrupt hands on to the report task.
    pub report_route_enabled: bool,
}

/// Constructed board hardware plus the effective system clock, for a board
/// that takes the whole peripheral bundle and so freezes the clock tree
/// itself before anything else is split out of it.
pub struct Initialized<T> {
    pub hardware: T,
    pub sysclk_hz: u32,
}

/// The board of an optional system.
pub open spec fn active_board(system: Option<SystemView>) -> Option<BoardView> {
    match system {
        Some(s) => s.board,
        None => None,
    }
}

/// Whether the active board declares the pin with this cfg name.
pub open spec fn board_pin(system: Option<SystemView>, name: Seq<char>) -> bool {
    active_board(system) matches Some(b) && board_has_pin(b, name)
}

/// Whether the active board declares the peripheral with this cfg name.
pub open spec fn board_peripheral(system: Option<SystemView>, name: Seq<char>) -> bool {
    active_board(system) matches Some(b) && board_has_peripheral(b, name)
}

/// The settings of a port from its default route.
pub open spec fn port_settings(route: Option<SerialProtocol>) -> SerialSettings {
    match route {
        Some(protocol) => protocol_settings(protocol),
        None => SerialSettings { baudrate_bps: 115_200, ..hal_default_settings() },
    }
}

/// The board settings the firmware boots with: each serial port from its
/// default route, timers at 1 Hz and 10 Hz, PWM at 400 Hz.
pub open spec fn boot_settings(routes: PortRoutes) -> Settings {
    Settings {
        serial1: port_settings(routes.serial1),
        serial2: port_settings(routes.serial2),
        serial3: port_settings(routes.serial3),
        timer1_frequency_hz: 1,
        timer2_frequency_hz: 10,
        pwm_frequency_hz: 400,
    }
}

/// The boot decisions for `chip`, the active system and the report feature:
/// the report feature is refused unless the system is the Nucleo report
/// prototype and its board has TIM3; then the clock and the default routes
/// are checked, in that order.
pub open spec fn boot_decisions(chip: Chip, system: Option<SystemView>, sw_report: bool) -> Result<
    BootPlan,
    BootError,
> {
    if sw_report && !(system matches Some(s) && s.cargo_feature == "system-nucleo-f401re"@) {
        Err(BootError::ReportNeedsNucleo)
    } else if sw_report && !board_peripheral(system, "tim3"@) {
        Err(BootError::ReportNeedsTim3)
    } else {
        match clock_plan(chip, system) {
            Err(e) => Err(BootError::Clock(e)),
            Ok(clock) => match default_routing(system) {
                Err(e) => Err(BootError::Routing(e)),
                Ok(routes) => Ok(
                    BootPlan {
                        clock,
                        builds_board: board_pin(system, "led1"@) || board_peripheral(
                            system,
                            "tim3"@,
                        ),
                        settings: boot_settings(routes),
                        spawn_blink: board_pin(system, "led1"@),
                        spawn_start_pwm: board_peripheral(system, "tim4"@),
                        report_route_enabled: board_peripheral(system, "tim3"@) && sw_report,
                    },
                ),
            },
        }
    }
}

/// Plans boot for `chip`, the active system, and whether the report feature
/// is selected.
pub fn boot_plan(chip: Chip, system: Option<&SystemConfig>, sw_report: bool) -> (plan: Result<
    BootPlan,
    BootError,
>)
    ensures
        plan == boot_decisions(chip, active_system(system), sw_report),
{
    let board = match system {
        Some(s) => s.board_config(),
        None => None,
    };
    let has_led1 = match board {
        Some(b) => b.has_pin("led1"),
        None => false,
    };
    let has_tim3 = match board {
        Some(b) => b.has_peripheral("tim3"),
        None => false,
    };
    let has_tim4 = match board {
        Some(b) => b.has_peripheral("tim4"),
        None => false,
    };
    if sw_report {
        let is_nucleo = match system {
            Some(s) => str_eq(s.feature(), "system-nucleo-f401re"),
            None => false,
        };
        if !is_nucleo {
            return Err(BootError::ReportNeedsNucleo);
        }
        if !has_tim3 {
            return Err(BootError::ReportNeedsTim3);
        }
    }
    let clock = match config(chip, system) {
        Err(e) => return Err(BootError::Clock(e)),
        Ok(clock) => clock,
    };
    let routes = match default_routes(system) {
        Err(e) => return Err(BootError::Routing(e)),
        Ok(routes) => routes,
    };
    let settings = Settings {
        serial1: resolve(routes.serial1),
        serial2: resolve(routes.serial2),
        serial3: resolve(routes.serial3),
        timer1_frequency_hz: 1,
        timer2_frequency_hz: 10,
        pwm_frequency_hz: 400,
    };
    Ok(
        BootPlan {
            clock,
            builds_board: has_led1 || has_tim3,
            settings,
            spawn_blink: has_led1,
            spawn_start_pwm: has_tim4,
            report_route_enabled: has_tim3 && sw_report,
        },
    )
}

} // verus!
