//! Motor PWM role. Written once; any board can bind it to any timer vector.

use vstd::prelude::*;

use super::common::RcFrame;
use super::{RoleCtx, RoleState, TimerRole};

verus! {

pub struct MotorPwm;

/// Counts the interrupts the motor role has handled.
pub struct MotorState {
    ticks: u32,
}

impl View for MotorState {
    type V = u32;

    closed spec fn view(&self) -> u32 {
        self.ticks
    }
}

impl MotorState {
    /// The state that has counted `ticks` interrupts.
    pub closed spec fn with_ticks(ticks: u32) -> MotorState {
        MotorState { ticks }
    }

    /// A state is the one with its own tick count.
    pub proof fn with_ticks_view(ticks: u32)
        ensures
            #[trigger] MotorState::with_ticks(ticks)@ == ticks,
    {
    }
}

impl RoleState for MotorState {
    open spec fn initial() -> Self {
        MotorState::with_ticks(0)
    }

    fn new() -> (state: Self)
        ensures
            state@ == 0,
    {
        Self { ticks: 0 }
    }
}

/// The ESC value after one motor interrupt: cut to zero while failsafe is
/// engaged, else advanced by one (wrapping).
pub open spec fn motor_esc_after(esc_state: u32, failsafe_state: u32) -> u32 {
    if failsafe_state != 0 {
        0
    } else {
        esc_state.wrapping_add(1)
    }
}

impl TimerRole for MotorPwm {
    type State = MotorState;

    open spec fn irq_effect(state: MotorState, esc_state: u32, failsafe_state: u32) -> (
        MotorState,
        u32,
        u32,
        Option<RcFrame>,
    ) {
        (
            MotorState::with_ticks(state@.wrapping_add(1)),
            motor_esc_after(esc_state, failsafe_state),
            failsafe_state,
            None,
        )
    }

    fn on_irq(state: &mut Self::State, ctx: RoleCtx<'_>) -> (frame: Option<RcFrame>)
        ensures
            final(state)@ == old(state)@.wrapping_add(1),
            *final(ctx.esc_state) == motor_esc_after(
                *old(ctx.esc_state),
                *old(ctx.failsafe_state),
            ),
            *final(ctx.failsafe_state) == *old(ctx.failsafe_state),
            frame is None,
    {
        state.ticks = state.ticks.wrapping_add(1);
        if *ctx.failsafe_state != 0 {
            *ctx.esc_state = 0;
        } else {
            *ctx.esc_state = ctx.esc_state.wrapping_add(1);
        }
        None
    }
}

} // verus!
