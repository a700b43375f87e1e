//! Role catalog, independent of any interrupt framework. A role is a type
//! implementing [`TimerRole`]; boards assign roles to timer vectors.

use vstd::prelude::*;

pub mod beeper;
pub mod common;
pub mod motor_pwm;
pub mod rc_capture;

use common::RcFrame;

verus! {

/// Per-role exclusive state.
pub trait RoleState: Sized {
    /// The state a role starts from.
    spec fn initial() -> Self;

    fn new() -> (state: Self)
        ensures
            state == Self::initial(),
    ;
}

/// Shared-resource view handed to a role after the interrupt handler has
/// taken its locks. Uniform across roles.
pub struct RoleCtx<'a> {
    pub esc_state: &'a mut u32,
    pub failsafe_state: &'a mut u32,
}

/// A role bound to a timer interrupt vector.
pub trait TimerRole {
    type State: RoleState;

    /// What one interrupt does, from the role's state and the shared ESC and
    /// failsafe values: the next state, the next ESC and failsafe values, and
    /// the frame handed on, if any.
    spec fn irq_effect(state: Self::State, esc_state: u32, failsafe_state: u32) -> (
        Self::State,
        u32,
        u32,
        Option<RcFrame>,
    );

    /// Handles one interrupt; returns a decoded RC frame when this interrupt
    /// produced one, so the caller can hand it on.
    fn on_irq(state: &mut Self::State, ctx: RoleCtx<'_>) -> (frame: Option<RcFrame>)
        ensures
            (*final(state), *final(ctx.esc_state), *final(ctx.failsafe_state), frame)
                == Self::irq_effect(*old(state), *old(ctx.esc_state), *old(ctx.failsafe_state)),
    ;
}

} // verus!
