//! RC capture role. Written once; any board can bind it to any timer vector.

use vstd::prelude::*;

use super::common::{after_edge, frame_ready, CaptureBuffer, RcFrame};
use super::{RoleCtx, RoleState, TimerRole};

verus! {

pub struct RcCapture;

impl RoleState for CaptureBuffer {
    open spec fn initial() -> Self {
        CaptureBuffer::empty()
    }

    fn new() -> (state: Self)
        ensures
            state@ == 0,
    {
        CaptureBuffer::new()
    }
}

/// The edge count after one capture interrupt: one more edge, then emptied
/// when a frame is decoded.
pub open spec fn capture_edges_after(edges: u8) -> u8 {
    if frame_ready(after_edge(edges)) {
        0
    } else {
        after_edge(edges)
    }
}

/// The frame one capture interrupt hands on.
pub open spec fn capture_frame_after(edges: u8) -> Option<RcFrame> {
    if frame_ready(after_edge(edges)) {
        Some(RcFrame(1))
    } else {
        None
    }
}

impl TimerRole for RcCapture {
    type State = CaptureBuffer;

    open spec fn irq_effect(state: CaptureBuffer, esc_state: u32, failsafe_state: u32) -> (
        CaptureBuffer,
        u32,
        u32,
        Option<RcFrame>,
    ) {
        (
            CaptureBuffer::with_edges(capture_edges_after(state@)),
            esc_state,
            failsafe_state,
            capture_frame_after(state@),
        )
    }

    fn on_irq(state: &mut Self::State, ctx: RoleCtx<'_>) -> (frame: Option<RcFrame>)
        ensures
            final(state)@ == capture_edges_after(old(state)@),
            frame == capture_frame_after(old(state)@),
            *final(ctx.esc_state) == *old(ctx.esc_state),
            *final(ctx.failsafe_state) == *old(ctx.failsafe_state),
    {
        state.push_edge();
        let frame = state.try_decode();
        proof {
            CaptureBuffer::view_determines(*state);
        }
        frame
    }
}

/// Applied once a frame is decoded: failsafe engages on a zero frame and
/// clears on any other.
pub fn on_frame(failsafe_state: &mut u32, frame: RcFrame)
    ensures
        *final(failsafe_state) == (if frame.0 == 0 {
            1u32
        } else {
            0u32
        }),
{
    *failsafe_state = if frame.0 == 0 {
        1
    } else {
        0
    };
}

/// The edge count of a capture buffer that started empty and has handled
/// `interrupts` capture interrupts.
pub open spec fn edges_after_interrupts(interrupts: nat) -> u8
    decreases interrupts,
{
    if interrupts == 0 {
        0
    } else {
        capture_edges_after(edges_after_interrupts((interrupts - 1) as nat))
    }
}

/// Starting from an empty buffer, the capture role decodes a frame on every
/// eighth interrupt and on no other: after `n` interrupts the buffer holds
/// `n % 8` edges, and interrupt `n + 1` hands on a frame exactly when
/// `n + 1` is a multiple of eight.
pub proof fn frame_every_eighth_interrupt(n: nat)
    ensures
        edges_after_interrupts(n) == n % 8,
        (capture_frame_after(edges_after_interrupts(n)) is Some) <==> (n + 1) % 8 == 0,
    decreases n,
{
    if n > 0 {
        frame_every_eighth_interrupt((n - 1) as nat);
    }
}


/// The capture role's buffer after `interrupts` interrupts from its initial
/// state (what `CaptureBuffer::new` gives).
pub open spec fn capture_state_after(interrupts: nat) -> CaptureBuffer
    decreases interrupts,
{
    if interrupts == 0 {
        <CaptureBuffer as RoleState>::initial()
    } else {
        CaptureBuffer::with_edges(capture_edges_after(capture_state_after((interrupts - 1) as nat)@))
    }
}

/// The buffer after `n` interrupts holds the edge count the interrupts give.
proof fn capture_state_counts_edges(n: nat)
    ensures
        capture_state_after(n)@ == edges_after_interrupts(n),
    decreases n,
{
    CaptureBuffer::with_edges_view(0);
    if n > 0 {
        capture_state_counts_edges((n - 1) as nat);
        CaptureBuffer::with_edges_view(capture_edges_after(capture_state_after((n - 1) as nat)@));
    }
}

/// Calling the capture role's handler again and again on a buffer that
/// starts as `CaptureBuffer::new` gives it: the `k`-th call hands on
/// `RcFrame(1)` exactly when `k` is a multiple of eight and nothing
/// otherwise, and never changes the ESC or failsafe value.
pub proof fn capture_role_frames_every_eighth_call(k: nat, esc_state: u32, failsafe_state: u32)
    requires
        k >= 1,
    ensures
        capture_state_after(0) == CaptureBuffer::empty(),
        RcCapture::irq_effect(capture_state_after((k - 1) as nat), esc_state, failsafe_state) == (
            capture_state_after(k),
            esc_state,
            failsafe_state,
            if k % 8 == 0 {
                Some(RcFrame(1))
            } else {
                None::<RcFrame>
            },
        ),
{
    capture_state_counts_edges((k - 1) as nat);
    frame_every_eighth_interrupt((k - 1) as nat);
}

} // verus!
