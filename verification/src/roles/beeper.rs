//! Beeper role. Only bound on chips that expose a vector for it (UART4,
//! absent on F401): a role can be chip-specific, not just board-specific.

use vstd::prelude::*;

use super::common::RcFrame;
use super::{RoleCtx, RoleState, TimerRole};

verus! {

pub struct Beeper;

/// Counts the beeps issued.
pub struct BeeperState {
    beeps: u32,
}

impl View for BeeperState {
    type V = u32;

    closed spec fn view(&self) -> u32 {
        self.beeps
    }
}

impl BeeperState {
    /// The state that has issued `beeps` beeps.
    pub closed spec fn with_beeps(beeps: u32) -> BeeperState {
        BeeperState { beeps }
    }

    /// A state is the one with its own beep count.
    pub proof fn with_beeps_view(beeps: u32)
        ensures
            #[trigger] BeeperState::with_beeps(beeps)@ == beeps,
    {
    }
}

impl RoleState for BeeperState {
    open spec fn initial() -> Self {
        BeeperState::with_beeps(0)
    }

    fn new() -> (state: Self)
        ensures
            state@ == 0,
    {
        Self { beeps: 0 }
    }
}

impl TimerRole for Beeper {
    type State = BeeperState;

    open spec fn irq_effect(state: BeeperState, esc_state: u32, failsafe_state: u32) -> (
        BeeperState,
        u32,
        u32,
        Option<RcFrame>,
    ) {
        (BeeperState::with_beeps(state@.wrapping_add(1)), esc_state, failsafe_state, None)
    }

    fn on_irq(state: &mut Self::State, ctx: RoleCtx<'_>) -> (frame: Option<RcFrame>)
        ensures
            final(state)@ == old(state)@.wrapping_add(1),
            *final(ctx.esc_state) == *old(ctx.esc_state),
            *final(ctx.failsafe_state) == *old(ctx.failsafe_state),
            frame is None,
    {
        state.beeps = state.beeps.wrapping_add(1);
        None
    }
}

} // verus!
