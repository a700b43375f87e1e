use rtic_code_skeleton::roles::beeper::{Beeper, BeeperState};
use rtic_code_skeleton::roles::common::{CaptureBuffer, RcFrame};
use rtic_code_skeleton::roles::motor_pwm::{MotorPwm, MotorState};
use rtic_code_skeleton::roles::rc_capture::{on_frame, RcCapture};
use rtic_code_skeleton::roles::{RoleCtx, RoleState, TimerRole};
use rtic_code_skeleton::skeleton::board::{ConfigATim2Role, ConfigATim3Role};
use rtic_code_skeleton::skeleton::{init, rc_frame_ready, tim2, tim3, uart4};

fn irq<R: TimerRole>(state: &mut R::State, esc: &mut u32, failsafe: &mut u32) -> Option<RcFrame> {
    R::on_irq(
        state,
        RoleCtx {
            esc_state: esc,
            failsafe_state: failsafe,
        },
    )
}

#[test]
fn capture_buffer_decodes_after_eight_edges() {
    let mut buffer = CaptureBuffer::new();
    for _ in 0..7 {
        buffer.push_edge();
        assert!(buffer.try_decode().is_none());
    }
    buffer.push_edge();
    let frame = buffer.try_decode().unwrap();
    assert_eq!(frame.0, 1);
    // Decoding empties the buffer.
    assert!(buffer.try_decode().is_none());
    buffer.push_edge();
    assert!(buffer.try_decode().is_none());
}

#[test]
fn rc_capture_hands_on_a_frame_every_eighth_interrupt() {
    let mut state = <CaptureBuffer as RoleState>::new();
    let (mut esc, mut failsafe) = (5u32, 3u32);
    for n in 1..=24u32 {
        let frame = irq::<RcCapture>(&mut state, &mut esc, &mut failsafe);
        assert_eq!(frame.is_some(), n % 8 == 0, "interrupt {n}");
    }
    assert_eq!((esc, failsafe), (5, 3));
}

#[test]
fn on_frame_engages_failsafe_only_on_zero_frames() {
    let mut failsafe = 7u32;
    on_frame(&mut failsafe, RcFrame(0));
    assert_eq!(failsafe, 1);
    on_frame(&mut failsafe, RcFrame(1));
    assert_eq!(failsafe, 0);
    on_frame(&mut failsafe, RcFrame(u32::MAX));
    assert_eq!(failsafe, 0);
}

#[test]
fn motor_cuts_esc_while_failsafe_is_engaged() {
    let mut state = <MotorState as RoleState>::new();
    let (mut esc, mut failsafe) = (41u32, 0u32);
    assert!(irq::<MotorPwm>(&mut state, &mut esc, &mut failsafe).is_none());
    assert_eq!(esc, 42);
    failsafe = 1;
    assert!(irq::<MotorPwm>(&mut state, &mut esc, &mut failsafe).is_none());
    assert_eq!(esc, 0);
    assert_eq!(failsafe, 1);
    failsafe = 0;
    esc = u32::MAX;
    irq::<MotorPwm>(&mut state, &mut esc, &mut failsafe);
    assert_eq!(esc, 0);
}

#[test]
fn beeper_leaves_shared_state_alone() {
    let mut state = <BeeperState as RoleState>::new();
    let (mut esc, mut failsafe) = (9u32, 1u32);
    for _ in 0..3 {
        assert!(irq::<Beeper>(&mut state, &mut esc, &mut failsafe).is_none());
    }
    assert_eq!((esc, failsafe), (9, 1));
}

#[test]
fn board_a_skeleton_runs_motor_on_tim2_and_capture_on_tim3() {
    let (mut shared, mut local) = init::<ConfigATim2Role, ConfigATim3Role>();
    assert_eq!((shared.esc_state, shared.failsafe_state), (0, 0));
    // TIM2 drives the motors.
    assert!(tim2(&mut shared, &mut local).is_none());
    assert_eq!(shared.esc_state, 1);
    // UART4 beeps without touching shared state.
    assert!(uart4(&mut shared, &mut local).is_none());
    assert_eq!(shared.esc_state, 1);
    // TIM3 captures: the eighth edge yields a frame, which clears failsafe.
    shared.failsafe_state = 1;
    let mut frames = Vec::new();
    for _ in 0..8 {
        if let Some(frame) = tim3(&mut shared, &mut local) {
            frames.push(frame);
        }
    }
    assert_eq!(frames.len(), 1);
    // While failsafe is engaged the motors are cut.
    assert!(tim2(&mut shared, &mut local).is_none());
    assert_eq!(shared.esc_state, 0);
    rc_frame_ready(&mut shared, frames.pop().unwrap());
    assert_eq!(shared.failsafe_state, 0);
    tim2(&mut shared, &mut local);
    assert_eq!(shared.esc_state, 1);
}
