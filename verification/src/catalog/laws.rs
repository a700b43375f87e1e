//! Properties the catalog keeps for every chip, board and system.

use vstd::prelude::*;

use super::boards::nucleo_f401re_board;
use super::chips::{chip_config, chip_feature, chip_for_feature, chip_max_sysclk_hz, Chip};
use super::items::{
    board_has_peripheral, board_has_pin, board_wf, peripheral_cfg_name, pin_cfg_name, Peripheral,
    Pin,
};
use super::systems::{registered_systems, system_chip, system_for_feature, system_wf};

verus! {

/// A chip family's Cargo feature selects that family and no other.
pub proof fn chip_feature_round_trip(chip: Chip)
    ensures
        chip_for_feature(chip_feature(chip)) == Some(chip),
{
    reveal_strlit("f401");
    reveal_strlit("f405");
    reveal_strlit("f411");
    assert("f401"@[3] != "f405"@[3]);
    assert("f401"@[2] != "f411"@[2]);
    assert("f405"@[2] != "f411"@[2]);
}

/// Every chip family records itself, a positive maximum sysclk, and a
/// default part with flash and RAM.
pub proof fn every_chip_has_a_default_part(chip: Chip)
    ensures
        chip_config(chip).chip == chip,
        chip_config(chip).max_sysclk_hz > 0,
        chip_config(chip).default_part.flash_kib > 0,
        chip_config(chip).default_part.ram_kib > 0,
{
}

/// A peripheral's cfg name identifies it: a board has a peripheral with that
/// name exactly when it declares the peripheral.
pub proof fn peripheral_name_identifies(board: super::items::BoardView, p: Peripheral)
    ensures
        board_has_peripheral(board, peripheral_cfg_name(p)) <==> board.peripherals.contains(p),
{
    reveal_strlit("usart1");
    reveal_strlit("usart2");
    reveal_strlit("usart6");
    reveal_strlit("tim3");
    reveal_strlit("tim4");
    reveal_strlit("tim5");
    if board_has_peripheral(board, peripheral_cfg_name(p)) {
        let i = choose|i: int|
            0 <= i < board.peripherals.len() && peripheral_cfg_name(board.peripherals[i])
                == peripheral_cfg_name(p);
        let q = board.peripherals[i];
        assert(q == p) by {
            if q != p {
                assert(peripheral_cfg_name(q)[5] != peripheral_cfg_name(p)[5]
                    || peripheral_cfg_name(q)[3] != peripheral_cfg_name(p)[3]
                    || peripheral_cfg_name(q).len() != peripheral_cfg_name(p).len());
            }
        }
    }
    if board.peripherals.contains(p) {
        let i = choose|i: int| 0 <= i < board.peripherals.len() && board.peripherals[i] == p;
        assert(peripheral_cfg_name(board.peripherals[i]) == peripheral_cfg_name(p));
    }
}

/// A pin's cfg name identifies it: a board has a pin with that name exactly
/// when it declares the pin.
pub proof fn pin_name_identifies(board: super::items::BoardView, p: Pin)
    ensures
        board_has_pin(board, pin_cfg_name(p)) <==> board.pins.contains(p),
{
    reveal_strlit("led1");
    reveal_strlit("led2");
    reveal_strlit("led3");
    reveal_strlit("serial1");
    reveal_strlit("serial2");
    reveal_strlit("serial3");
    reveal_strlit("pwm1");
    reveal_strlit("pwm2");
    if board_has_pin(board, pin_cfg_name(p)) {
        let i = choose|i: int|
            0 <= i < board.pins.len() && pin_cfg_name(board.pins[i]) == pin_cfg_name(p);
        let q = board.pins[i];
        assert(q == p) by {
            if q != p {
                assert(pin_cfg_name(q).len() != pin_cfg_name(p).len()
                    || pin_cfg_name(q)[0] != pin_cfg_name(p)[0]
                    || pin_cfg_name(q)[3] != pin_cfg_name(p)[3]
                    || pin_cfg_name(q)[6] != pin_cfg_name(p)[6]);
            }
        }
    }
    if board.pins.contains(p) {
        let i = choose|i: int| 0 <= i < board.pins.len() && board.pins[i] == p;
        assert(pin_cfg_name(board.pins[i]) == pin_cfg_name(p));
    }
}

/// No two registered systems share a Cargo feature.
pub proof fn system_features_distinct(i: int, j: int)
    requires
        0 <= i < j < registered_systems().len(),
    ensures
        registered_systems()[i].cargo_feature != registered_systems()[j].cargo_feature,
{
    reveal_strlit("system-nucleo-f401re");
    reveal_strlit("system-default-f401");
    reveal_strlit("system-default-f405");
    reveal_strlit("system-default-f411");
    let a = registered_systems()[i].cargo_feature;
    let b = registered_systems()[j].cargo_feature;
    assert(a.len() != b.len() || a[17] != b[17] || a[18] != b[18]);
}

/// Looking up a registered system's own Cargo feature finds that system.
pub proof fn system_config_finds_each(i: int)
    requires
        0 <= i < registered_systems().len(),
    ensures
        system_for_feature(registered_systems()[i].cargo_feature) == Some(registered_systems()[i]),
{
    let f = registered_systems()[i].cargo_feature;
    assert(registered_systems()[i].cargo_feature == f);
    let w = choose|w: int|
        0 <= w < registered_systems().len() && #[trigger] registered_systems()[w].cargo_feature == f
            && forall|j: int| 0 <= j < w ==> registered_systems()[j].cargo_feature != f;
    assert forall|j: int| 0 <= j < i implies registered_systems()[j].cargo_feature != f by {
        system_features_distinct(j, i);
    }
    if w < i {
        system_features_distinct(w, i);
    } else if w > i {
    }
}

/// Every registered system declares its chip and keeps its board's lists
/// as ordered sets.
pub proof fn registered_systems_are_well_formed(i: int)
    requires
        0 <= i < registered_systems().len(),
    ensures
        system_wf(registered_systems()[i]),
{
    assert(board_wf(nucleo_f401re_board()));
}

/// A system's default serial routes name only pins that its board declares,
/// and route each such pin at most once; a system without a board routes
/// nothing.
pub proof fn default_routes_name_declared_pins(i: int, k: int)
    requires
        0 <= i < registered_systems().len(),
        0 <= k < registered_systems()[i].default_serial_routes.len(),
    ensures
        registered_systems()[i].board matches Some(b) && board_has_pin(
            b,
            pin_cfg_name(registered_systems()[i].default_serial_routes[k].pin),
        ),
        forall|m: int|
            0 <= m < registered_systems()[i].default_serial_routes.len() && m != k
                ==> registered_systems()[i].default_serial_routes[m].pin
                != registered_systems()[i].default_serial_routes[k].pin,
{
    let s = registered_systems()[i];
    assert(i == 0);
    let b = nucleo_f401re_board();
    let p = s.default_serial_routes[k].pin;
    if k == 0 {
        assert(b.pins[3] == p);
    } else {
        assert(b.pins[4] == p);
    }
    assert(pin_cfg_name(b.pins[if k == 0 { 3int } else { 4int }]) == pin_cfg_name(p));
}

/// A system's selected clock never exceeds its chip's maximum sysclk.
pub proof fn clock_within_chip_limit(i: int)
    requires
        0 <= i < registered_systems().len(),
    ensures
        registered_systems()[i].clock matches Some(c) ==> c.target_hz <= chip_max_sysclk_hz(
            system_chip(registered_systems()[i]),
        ),
{
}

} // verus!
