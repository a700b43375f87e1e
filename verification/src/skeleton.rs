//! The decisions of the F405 interrupt skeleton, apart from the interrupt
//! framework that runs them. Boards choose which role sits on TIM2 and TIM3
//! (see [`board`]); UART4, which only F405 has, always drives the beeper.
//!
//! Each handler takes the resources it would lock and returns the frame to
//! hand to [`rc_frame_ready`], if any; the caller owns the scheduling.

use vstd::prelude::*;

pub mod board;

use crate::roles::beeper::{Beeper, BeeperState};
use crate::roles::common::RcFrame;
use crate::roles::rc_capture::on_frame;
use crate::roles::{RoleCtx, RoleState, TimerRole};

verus! {

/// Resources shared by all interrupt handlers.
pub struct Shared {
    pub esc_state: u32,
    pub failsafe_state: u32,
}

/// Each handler's exclusive role state.
pub struct Local<Tim2Role: TimerRole, Tim3Role: TimerRole> {
    pub tim2_state: Tim2Role::State,
    pub tim3_state: Tim3Role::State,
    pub uart4_state: BeeperState,
}

/// Builds the starting resources: ESC and failsafe at zero, every role in
/// its initial state.
pub fn init<Tim2Role: TimerRole, Tim3Role: TimerRole>() -> (resources: (
    Shared,
    Local<Tim2Role, Tim3Role>,
))
    ensures
        resources.0.esc_state == 0,
        resources.0.failsafe_state == 0,
        resources.1.tim2_state == <Tim2Role::State as RoleState>::initial(),
        resources.1.tim3_state == <Tim3Role::State as RoleState>::initial(),
        resources.1.uart4_state == <BeeperState as RoleState>::initial(),
{
    (
        Shared { esc_state: 0, failsafe_state: 0 },
        Local {
            tim2_state: <Tim2Role::State as RoleState>::new(),
            tim3_state: <Tim3Role::State as RoleState>::new(),
            uart4_state: <BeeperState as RoleState>::new(),
        },
    )
}

/// The TIM2 interrupt: runs TIM2's role on the shared state.
pub fn tim2<Tim2Role: TimerRole, Tim3Role: TimerRole>(
    shared: &mut Shared,
    local: &mut Local<Tim2Role, Tim3Role>,
) -> (frame: Option<RcFrame>)
    ensures
        (
            final(local).tim2_state,
            final(shared).esc_state,
            final(shared).failsafe_state,
            frame,
        ) == Tim2Role::irq_effect(
            old(local).tim2_state,
            old(shared).esc_state,
            old(shared).failsafe_state,
        ),
        final(local).tim3_state == old(local).tim3_state,
        final(local).uart4_state == old(local).uart4_state,
{
    Tim2Role::on_irq(
        &mut local.tim2_state,
        RoleCtx { esc_state: &mut shared.esc_state, failsafe_state: &mut shared.failsafe_state },
    )
}

/// The TIM3 interrupt: runs TIM3's role on the shared state.
pub fn tim3<Tim2Role: TimerRole, Tim3Role: TimerRole>(
    shared: &mut Shared,
    local: &mut Local<Tim2Role, Tim3Role>,
) -> (frame: Option<RcFrame>)
    ensures
        (
            final(local).tim3_state,
            final(shared).esc_state,
            final(shared).failsafe_state,
            frame,
        ) == Tim3Role::irq_effect(
            old(local).tim3_state,
            old(shared).esc_state,
            old(shared).failsafe_state,
        ),
        final(local).tim2_state == old(local).tim2_state,
        final(local).uart4_state == old(local).uart4_state,
{
    Tim3Role::on_irq(
        &mut local.tim3_state,
        RoleCtx { esc_state: &mut shared.esc_state, failsafe_state: &mut shared.failsafe_state },
    )
}

/// The UART4 interrupt, which only F405 has: runs the beeper.
pub fn uart4<Tim2Role: TimerRole, Tim3Role: TimerRole>(
    shared: &mut Shared,
    local: &mut Local<Tim2Role, Tim3Role>,
) -> (frame: Option<RcFrame>)
    ensures
        (
            final(local).uart4_state,
            final(shared).esc_state,
            final(shared).failsafe_state,
            frame,
        ) == Beeper::irq_effect(
            old(local).uart4_state,
            old(shared).esc_state,
            old(shared).failsafe_state,
        ),
        final(local).tim2_state == old(local).tim2_state,
        final(local).tim3_state == old(local).tim3_state,
{
    Beeper::on_irq(
        &mut local.uart4_state,
        RoleCtx { esc_state: &mut shared.esc_state, failsafe_state: &mut shared.failsafe_state },
    )
}

/// The software task a decoded frame is handed to: applies it to failsafe.
pub fn rc_frame_ready(shared: &mut Shared, frame: RcFrame)
    ensures
        final(shared).failsafe_state == (if frame.0 == 0 {
            1u32
        } else {
            0u32
        }),
        final(shared).esc_state == old(shared).esc_state,
{
    on_frame(&mut shared.failsafe_state, frame);
}

} // verus!
