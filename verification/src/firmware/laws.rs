//! Properties of the firmware's boot decisions over every registered system.

use vstd::prelude::*;

use super::boot::{boot_decisions, port_settings};
use super::routing::{declared_routes, firmware_protocol, route_for, system_board};
use super::serial_protocol::{
    protocol_settings, serial_protocol_name, DmaConfig, IrdaMode, Parity, SerialProtocol,
    SerialSettings, StopBits, WordLength,
};
use crate::catalog::chips::{chip_max_sysclk_hz, Chip};
use crate::catalog::items::{board_has_peripheral, protocol_variant_name, Protocol};
use super::clock::{clock_plan, hsi_settings, ClockError, ClockSettings, ClockSource};
use super::routing::{check_routes, default_routing, RoutingError};
use crate::catalog::boards::nucleo_f401re_board;
use crate::catalog::items::{board_has_pin, pin_cfg_name, Pin};
use crate::catalog::items::BoardView;
use crate::catalog::systems::{
    nucleo_f401re_system, registered_systems, system_chip, SerialRoute, SystemView,
};

verus! {

proof fn one_more_route_accepted(routes: Seq<SerialRoute>, board: BoardView)
    requires
        routes.len() > 0,
        check_routes(routes.drop_last(), Some(board)) == Ok::<(), RoutingError>(()),
        forall|k: int| 0 <= k < routes.len() - 1 ==> routes[k].pin != routes.last().pin,
        board_has_pin(board, pin_cfg_name(routes.last().pin)),
    ensures
        check_routes(routes, Some(board)) == Ok::<(), RoutingError>(()),
{
}

proof fn two_routes_accepted(r0: SerialRoute, r1: SerialRoute, board: BoardView)
    requires
        r0.pin != r1.pin,
        board_has_pin(board, pin_cfg_name(r0.pin)),
        board_has_pin(board, pin_cfg_name(r1.pin)),
    ensures
        check_routes(seq![r0, r1], Some(board)) == Ok::<(), RoutingError>(()),
{
    let none = Seq::<SerialRoute>::empty();
    let one = seq![r0];
    let two = seq![r0, r1];
    assert(check_routes(none, Some(board)) == Ok::<(), RoutingError>(()));
    assert(one.drop_last() == none);
    one_more_route_accepted(one, board);
    assert(two.drop_last() == one);
    one_more_route_accepted(two, board);
}

proof fn nucleo_routes_are_accepted()
    ensures
        check_routes(
            nucleo_f401re_system().default_serial_routes,
            Some(nucleo_f401re_board()),
        ) == Ok::<(), RoutingError>(()),
{
    let b = nucleo_f401re_board();
    let r0 = SerialRoute { pin: Pin::Serial1, protocol: crate::catalog::items::Protocol::Crsf };
    let r1 = SerialRoute { pin: Pin::Serial2, protocol: crate::catalog::items::Protocol::Msp };
    assert(b.pins[3] == Pin::Serial1);
    assert(b.pins[4] == Pin::Serial2);
    assert(board_has_pin(b, pin_cfg_name(Pin::Serial1)));
    assert(board_has_pin(b, pin_cfg_name(Pin::Serial2)));
    two_routes_accepted(r0, r1, b);
}

/// Every registered system's default routes are accepted: no port is routed
/// twice and every routed port is one its board provides.
pub proof fn registered_routing_is_accepted(i: int)
    requires
        0 <= i < registered_systems().len(),
    ensures
        default_routing(Some(registered_systems()[i])) is Ok,
{
    let s = registered_systems()[i];
    if i == 0 {
        nucleo_routes_are_accepted();
        assert(s == nucleo_f401re_system());
    } else {
        assert(s.default_serial_routes.len() == 0);
        assert(check_routes(s.default_serial_routes, s.board) == Ok::<(), RoutingError>(()));
    }
}

/// Without the report feature, every registered system boots on its own
/// chip: its clock selection and default routes are accepted.
pub proof fn registered_systems_boot(i: int)
    requires
        0 <= i < registered_systems().len(),
    ensures
        boot_decisions(system_chip(registered_systems()[i]), Some(registered_systems()[i]), false)
            is Ok,
{
    let s = registered_systems()[i];
    registered_routing_is_accepted(i);
    crate::catalog::laws::clock_within_chip_limit(i);
    assert(clock_plan(system_chip(s), Some(s)) is Ok);
}

/// A build without a board and without a clock selection (chip-only, or a
/// board-less system) builds no hardware, starts neither the blink nor the
/// PWM task, keeps the report route off, and runs the bare internal
/// oscillator.
pub proof fn boardless_boot_is_bare(chip: crate::catalog::chips::Chip, system: Option<SystemView>)
    requires
        system matches Some(s) ==> s.board is None && s.default_serial_routes.len() == 0
            && s.clock is None,
    ensures
        boot_decisions(chip, system, false) matches Ok(plan) && !plan.builds_board
            && !plan.spawn_blink && !plan.spawn_start_pwm && !plan.report_route_enabled
            && plan.clock == hsi_settings(),
{
    let routes = match system {
        Some(s) => s.default_serial_routes,
        None => Seq::empty(),
    };
    assert(routes.len() == 0);
    assert(check_routes(routes, None) == Ok::<(), RoutingError>(()));
}


/// The report route is a boot decision of its own: a build without the
/// report feature never enables it, and a build with it that boots always
/// does.
pub proof fn report_route_follows_the_report_feature(
    chip: crate::catalog::chips::Chip,
    system: Option<SystemView>,
)
    ensures
        boot_decisions(chip, system, false) matches Ok(plan) ==> !plan.report_route_enabled,
        boot_decisions(chip, system, true) matches Ok(plan) ==> plan.report_route_enabled,
{
}


/// Each protocol's settings, field by field: SBUS runs at 100000 baud with
/// even parity and 2 stop bits; CRSF at 420000, MSP at 115200 and MAVLink
/// at 57600 baud, all three 8N1; every protocol uses 8 data bits without
/// DMA or IrDA. An unrouted port gets 115200 baud 8N1.
pub proof fn protocol_settings_are_the_protocols(p: SerialProtocol)
    ensures
        protocol_settings(p).wordlength == WordLength::DataBits8,
        protocol_settings(p).dma == DmaConfig::Off,
        protocol_settings(p).irda == IrdaMode::Off,
        p == SerialProtocol::Sbus ==> protocol_settings(p).baudrate_bps == 100_000
            && protocol_settings(p).parity == Parity::ParityEven && protocol_settings(p).stopbits
            == StopBits::STOP2,
        p != SerialProtocol::Sbus ==> protocol_settings(p).parity == Parity::ParityNone
            && protocol_settings(p).stopbits == StopBits::STOP1,
        p == SerialProtocol::Crsf ==> protocol_settings(p).baudrate_bps == 420_000,
        p == SerialProtocol::Msp ==> protocol_settings(p).baudrate_bps == 115_200,
        p == SerialProtocol::Mavlink ==> protocol_settings(p).baudrate_bps == 57_600,
        port_settings(None) == (SerialSettings {
            baudrate_bps: 115_200,
            wordlength: WordLength::DataBits8,
            parity: Parity::ParityNone,
            stopbits: StopBits::STOP1,
            dma: DmaConfig::Off,
            irda: IrdaMode::Off,
        }),
        port_settings(Some(p)) == protocol_settings(p),
{
}

/// A route's firmware protocol is the variant of the same name as the
/// catalog protocol, so no two catalog protocols share one.
pub proof fn routes_keep_their_protocol(p: Protocol, q: Protocol)
    ensures
        serial_protocol_name(firmware_protocol(p)) == protocol_variant_name(p),
        p != q ==> firmware_protocol(p) != firmware_protocol(q),
{
}

/// Whether the board of an optional system declares the pin with this cfg
/// name.
pub open spec fn system_has_pin(system: Option<SystemView>, name: Seq<char>) -> bool {
    system matches Some(s) && s.board matches Some(b) && board_has_pin(b, name)
}

/// Whether the board of an optional system declares the peripheral with
/// this cfg name.
pub open spec fn system_has_peripheral(system: Option<SystemView>, name: Seq<char>) -> bool {
    system matches Some(s) && s.board matches Some(b) && board_has_peripheral(b, name)
}

/// What boot starts follows the board, not the report feature: the board's
/// hardware is built when it has LED 1 or TIM3, the blink task starts when
/// it has LED 1 and the PWM task when it has TIM4, whether or not the
/// report feature is selected; the report route is on exactly when the
/// report feature is selected and the board has TIM3. The timers run at
/// 1 Hz and 10 Hz and PWM at 400 Hz.
pub proof fn boot_follows_the_board(chip: Chip, system: Option<SystemView>, sw_report: bool)
    ensures
        boot_decisions(chip, system, sw_report) matches Ok(plan) ==> {
            &&& plan.spawn_blink == system_has_pin(system, "led1"@)
            &&& plan.spawn_start_pwm == system_has_peripheral(system, "tim4"@)
            &&& plan.builds_board == (system_has_pin(system, "led1"@) || system_has_peripheral(
                system,
                "tim3"@,
            ))
            &&& plan.report_route_enabled == (sw_report && system_has_peripheral(system, "tim3"@))
            &&& plan.settings.timer1_frequency_hz == 1
            &&& plan.settings.timer2_frequency_hz == 10
            &&& plan.settings.pwm_frequency_hz == 400
            &&& clock_plan(chip, system) == Ok::<ClockSettings, ClockError>(plan.clock)
            &&& (default_routing(system) matches Ok(r) && plan.settings.serial1 == port_settings(
                r.serial1,
            ) && plan.settings.serial2 == port_settings(r.serial2) && plan.settings.serial3
                == port_settings(r.serial3))
        },
        boot_decisions(chip, system, true) is Ok ==> (system matches Some(s) && s.cargo_feature
            == "system-nucleo-f401re"@ && system_has_peripheral(system, "tim3"@)),
{
}

/// The clock plan: the bare internal oscillator without a clock selection;
/// with one, refused when the target exceeds the chip's maximum, and
/// otherwise that target, from the board's 8 MHz HSE in bypass mode when
/// the system has a board and from the internal oscillator when it has
/// none.
pub proof fn clock_follows_the_selection(chip: Chip, system: Option<SystemView>)
    ensures
        (system matches Some(s) && s.clock matches Some(c)) ==> {
            let target = system->Some_0.clock->Some_0.target_hz;
            &&& target > chip_max_sysclk_hz(chip) ==> clock_plan(chip, system) == Err::<
                ClockSettings,
                ClockError,
            >(ClockError::TargetExceedsMax { target_hz: target, max_hz: chip_max_sysclk_hz(chip) })
            &&& target <= chip_max_sysclk_hz(chip) ==> clock_plan(chip, system) == Ok::<
                ClockSettings,
                ClockError,
            >(
                ClockSettings {
                    source: if system->Some_0.board is Some {
                        ClockSource::HseBypass { hz: 8_000_000 }
                    } else {
                        ClockSource::Hsi
                    },
                    sysclk_hz: Some(target),
                },
            )
        },
        !(system matches Some(s) && s.clock matches Some(c)) ==> clock_plan(chip, system) == Ok::<
            ClockSettings,
            ClockError,
        >(ClockSettings { source: ClockSource::Hsi, sysclk_hz: None }),
{
}

/// Without the report feature, boot is refused only for the clock or the
/// routes: a build whose clock selection and default routes are accepted
/// boots.
pub proof fn boot_without_report_needs_clock_and_routes(chip: Chip, system: Option<SystemView>)
    ensures
        boot_decisions(chip, system, false) is Ok <==> (clock_plan(chip, system) is Ok
            && default_routing(system) is Ok),
{
}


/// A mapping of ports to protocols is accepted exactly when no port is
/// routed twice and every routed port is one the board provides (so any
/// route needs a board).
pub proof fn routes_accepted_iff_possible(routes: Seq<SerialRoute>, board: Option<BoardView>)
    ensures
        check_routes(routes, board) is Ok <==> ((forall|i: int, j: int|
            0 <= i < j < routes.len() ==> #[trigger] routes[i].pin != #[trigger] routes[j].pin)
            && forall|k: int|
            0 <= k < routes.len() ==> (board matches Some(b) && board_has_pin(
                b,
                pin_cfg_name(#[trigger] routes[k].pin),
            ))),
    decreases routes.len(),
{
    if routes.len() > 0 {
        let prev = routes.drop_last();
        routes_accepted_iff_possible(prev, board);
        assert forall|k: int| 0 <= k < prev.len() implies prev[k] == routes[k] by {}
        let n = routes.len() - 1;
        assert(routes[n] == routes.last());
    }
}

/// In an accepted mapping no two routes name the same port.
proof fn accepted_routes_distinct(routes: Seq<SerialRoute>, board: Option<BoardView>, i: int, j: int)
    requires
        check_routes(routes, board) is Ok,
        0 <= i < j < routes.len(),
    ensures
        routes[i].pin != routes[j].pin,
    decreases routes.len(),
{
    let prev = routes.drop_last();
    if j < routes.len() - 1 {
        accepted_routes_distinct(prev, board, i, j);
        assert(prev[i] == routes[i] && prev[j] == routes[j]);
    } else {
        assert(routes[j] == routes.last());
        if routes[i].pin == routes.last().pin {
            assert(routes[i].pin == routes.last().pin);
        }
    }
}

/// In an accepted mapping, the route naming a port is the one it gets.
proof fn accepted_route_is_the_ports(routes: Seq<SerialRoute>, board: Option<BoardView>, port: Pin, k: int)
    requires
        check_routes(routes, board) is Ok,
        0 <= k < routes.len(),
        routes[k].pin == port,
    ensures
        route_for(routes, port) == Some(firmware_protocol(routes[k].protocol)),
{
    reveal(route_for);
    assert forall|m: int| 0 <= m < k implies routes[m].pin != port by {
        accepted_routes_distinct(routes, board, m, k);
    }
    let c = choose|c: int|
        0 <= c < routes.len() && #[trigger] routes[c].pin == port && forall|m: int|
            0 <= m < c ==> routes[m].pin != port;
    if c < k {
        accepted_routes_distinct(routes, board, c, k);
    } else if c > k {
        assert(routes[k].pin == port);
    }
}

/// A port no route names gets no route.
proof fn unnamed_port_has_no_route(routes: Seq<SerialRoute>, port: Pin)
    requires
        forall|k: int| 0 <= k < routes.len() ==> #[trigger] routes[k].pin != port,
    ensures
        route_for(routes, port) is None,
{
    reveal(route_for);
}

/// The default routing of an accepted system gives each port the protocol
/// of the route that names it, and nothing to a port no route names.
pub proof fn default_routing_gives_each_port_its_route(system: Option<SystemView>)
    ensures
        default_routing(system) matches Ok(r) ==> {
            let routes = declared_routes(system);
            &&& forall|k: int|
                0 <= k < routes.len() && #[trigger] routes[k].pin == Pin::Serial1 ==> r.serial1
                    == Some(firmware_protocol(routes[k].protocol))
            &&& forall|k: int|
                0 <= k < routes.len() && #[trigger] routes[k].pin == Pin::Serial2 ==> r.serial2
                    == Some(firmware_protocol(routes[k].protocol))
            &&& forall|k: int|
                0 <= k < routes.len() && #[trigger] routes[k].pin == Pin::Serial3 ==> r.serial3
                    == Some(firmware_protocol(routes[k].protocol))
            &&& (forall|k: int| 0 <= k < routes.len() ==> #[trigger] routes[k].pin != Pin::Serial1)
                ==> r.serial1 is None
            &&& (forall|k: int| 0 <= k < routes.len() ==> #[trigger] routes[k].pin != Pin::Serial2)
                ==> r.serial2 is None
            &&& (forall|k: int| 0 <= k < routes.len() ==> #[trigger] routes[k].pin != Pin::Serial3)
                ==> r.serial3 is None
        },
{
    let routes = declared_routes(system);
    let board = system_board(system);
    if check_routes(routes, board) is Ok {
        let r = default_routing(system)->Ok_0;
        assert(r.serial1 == route_for(routes, Pin::Serial1));
        assert(r.serial2 == route_for(routes, Pin::Serial2));
        assert(r.serial3 == route_for(routes, Pin::Serial3));
        assert forall|k: int| 0 <= k < routes.len() && #[trigger] routes[k].pin == Pin::Serial1 implies route_for(routes, Pin::Serial1) == Some(firmware_protocol(routes[k].protocol)) by {
            accepted_route_is_the_ports(routes, board, Pin::Serial1, k);
        }
        assert forall|k: int| 0 <= k < routes.len() && #[trigger] routes[k].pin == Pin::Serial2 implies route_for(routes, Pin::Serial2) == Some(firmware_protocol(routes[k].protocol)) by {
            accepted_route_is_the_ports(routes, board, Pin::Serial2, k);
        }
        assert forall|k: int| 0 <= k < routes.len() && #[trigger] routes[k].pin == Pin::Serial3 implies route_for(routes, Pin::Serial3) == Some(firmware_protocol(routes[k].protocol)) by {
            accepted_route_is_the_ports(routes, board, Pin::Serial3, k);
        }
        if forall|k: int| 0 <= k < routes.len() ==> #[trigger] routes[k].pin != Pin::Serial1 {
            unnamed_port_has_no_route(routes, Pin::Serial1);
        }
        if forall|k: int| 0 <= k < routes.len() ==> #[trigger] routes[k].pin != Pin::Serial2 {
            unnamed_port_has_no_route(routes, Pin::Serial2);
        }
        if forall|k: int| 0 <= k < routes.len() ==> #[trigger] routes[k].pin != Pin::Serial3 {
            unnamed_port_has_no_route(routes, Pin::Serial3);
        }
    }
}

} // verus!
