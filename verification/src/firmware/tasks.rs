//! What the interrupt handlers and software tasks of the application body
//! do with their resources, apart from the framework that runs them.

use vstd::prelude::*;

verus! {

/// The USART1 interrupt: counts the interrupt and marks the buffer.
pub fn usart1(counter: &mut u32, buffer: &mut [u8; 32])
    requires
        *old(counter) < u32::MAX,
    ensures
        *final(counter) == *old(counter) + 1,
        final(buffer)@ == old(buffer)@.update(0, 1),
{
    *counter += 1;
    buffer.set(0, 1);
}

/// The TIM5 interrupt (after clearing it): counts the interrupt, wrapping.
pub fn timer2_interrupt(counter: &mut u32)
    ensures
        *final(counter) == (*old(counter)).wrapping_add(1),
{
    *counter = counter.wrapping_add(1);
}

/// The TIM3 interrupt (after clearing it): whether to hand on to the report
/// task, which it does exactly when the report route is enabled.
pub fn report_timer_interrupt(report_route_enabled: bool) -> (spawn_report: bool)
    ensures
        spawn_report == report_route_enabled,
{
    report_route_enabled
}

/// A phase of the LED blink loop.
#[derive(Clone, Copy, Debug, PartialEq, Eq, Structural)]
pub enum BlinkPhase {
    /// The LEDs are about to be turned on.
    TurnOn,
    /// The LEDs are about to be turned off.
    TurnOff,
}

/// One step of the blink loop: the LED state to set, how long to wait
/// afterwards, and the next phase. The LEDs alternate every 500 ms.
pub struct BlinkStep {
    pub leds_on: bool,
    pub delay_ms: u32,
    pub next: BlinkPhase,
}

/// The phase after a blink step.
pub open spec fn next_blink_phase(phase: BlinkPhase) -> BlinkPhase {
    if phase == BlinkPhase::TurnOn {
        BlinkPhase::TurnOff
    } else {
        BlinkPhase::TurnOn
    }
}

/// The phase of the blink loop before its step `k` (counting from zero).
pub open spec fn blink_phase_at(k: nat) -> BlinkPhase
    decreases k,
{
    if k == 0 {
        BlinkPhase::TurnOn
    } else {
        next_blink_phase(blink_phase_at((k - 1) as nat))
    }
}

/// One step of the blink loop.
pub fn blink(phase: BlinkPhase) -> (step: BlinkStep)
    ensures
        step.leds_on == (phase == BlinkPhase::TurnOn),
        step.delay_ms == 500,
        step.next == next_blink_phase(phase),
{
    match phase {
        BlinkPhase::TurnOn => BlinkStep { leds_on: true, delay_ms: 500, next: BlinkPhase::TurnOff },
        BlinkPhase::TurnOff => BlinkStep { leds_on: false, delay_ms: 500, next: BlinkPhase::TurnOn },
    }
}

/// The blink loop, started in the `TurnOn` phase and fed each step's next
/// phase, turns the LEDs on at every even step and off at every odd one:
/// with 500 ms after each step, they alternate with a one-second period
/// and equal on and off times, starting on.
pub proof fn blink_alternates(k: nat)
    ensures
        blink_phase_at(k) == (if k % 2 == 0 {
            BlinkPhase::TurnOn
        } else {
            BlinkPhase::TurnOff
        }),
    decreases k,
{
    if k > 0 {
        blink_alternates((k - 1) as nat);
    }
}

} // verus!
