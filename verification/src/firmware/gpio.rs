//! Digital output polarity: which electrical level means "on" for an output
//! that is active high or active low.

use vstd::prelude::*;

verus! {

/// An electrical output level.
#[derive(Clone, Copy, Debug, PartialEq, Eq, Structural)]
pub enum PinLevel {
    Low,
    High,
}

/// The level that puts an output in the logical state `active`.
pub open spec fn level_for(active_high: bool, active: bool) -> PinLevel {
    if active == active_high {
        PinLevel::High
    } else {
        PinLevel::Low
    }
}

/// The level an output is created in: inactive.
pub fn initial_level(active_high: bool) -> (level: PinLevel)
    ensures
        level == level_for(active_high, false),
{
    if active_high {
        PinLevel::Low
    } else {
        PinLevel::High
    }
}

/// The level that turns an output on.
pub fn on_level(active_high: bool) -> (level: PinLevel)
    ensures
        level == level_for(active_high, true),
{
    if active_high {
        PinLevel::High
    } else {
        PinLevel::Low
    }
}

/// The level that turns an output off.
pub fn off_level(active_high: bool) -> (level: PinLevel)
    ensures
        level == level_for(active_high, false),
{
    if active_high {
        PinLevel::Low
    } else {
        PinLevel::High
    }
}

/// Whatever an output's polarity, the levels for on and for off differ.
pub proof fn on_and_off_are_opposite(active_high: bool)
    ensures
        level_for(active_high, true) != level_for(active_high, false),
{
}

} // verus!
