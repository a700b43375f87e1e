//! Board role tables: which role each board binds to TIM2 and TIM3.

use vstd::prelude::*;

use crate::roles::motor_pwm::MotorPwm;
use crate::roles::rc_capture::RcCapture;

verus! {

/// Board A: TIM2 drives the motors, TIM3 captures RC input.
pub type ConfigATim2Role = MotorPwm;

/// Board A: TIM3 captures RC input.
pub type ConfigATim3Role = RcCapture;

/// Board B: TIM2 captures RC input (swapped against board A).
pub type ConfigBTim2Role = RcCapture;

/// Board B: TIM3 drives the motors.
pub type ConfigBTim3Role = MotorPwm;

} // verus!
