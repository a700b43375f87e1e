//! Physical board manifests. A board declares only what it enables; no
//! software capability belongs here.

use vstd::prelude::*;

use super::chips::Chip;
use super::items::{board_wf, BoardConfig, BoardView, Peripheral, Pin};

verus! {

/// The ST NUCLEO-F401RE prototype board. PB0/PB1 are expansion-header
/// connections for two external LEDs; only PA5 is an LED on the PCB.
pub open spec fn nucleo_f401re_board() -> BoardView {
    BoardView {
        name: "ST NUCLEO-F401RE"@,
        chip: Chip::F401,
        peripherals: seq![
            Peripheral::Usart1,
            Peripheral::Usart2,
            Peripheral::Usart6,
            Peripheral::Tim3,
            Peripheral::Tim4,
            Peripheral::Tim5,
        ],
        pins: seq![
            Pin::Led1,
            Pin::Led2,
            Pin::Led3,
            Pin::Serial1,
            Pin::Serial2,
            Pin::Serial3,
            Pin::Pwm1,
            Pin::Pwm2,
        ],
        dma: Seq::empty(),
    }
}

/// Builds the NUCLEO-F401RE board manifest.
pub fn nucleo_f401re_config() -> (board: BoardConfig)
    ensures
        board@ == nucleo_f401re_board(),
        board_wf(board@),
{
    let board = BoardConfig {
        name: "ST NUCLEO-F401RE",
        chip: Chip::F401,
        peripherals: vec![
            Peripheral::Usart1,
            Peripheral::Usart2,
            Peripheral::Usart6,
            Peripheral::Tim3,
            Peripheral::Tim4,
            Peripheral::Tim5,
        ],
        pins: vec![
            Pin::Led1,
            Pin::Led2,
            Pin::Led3,
            Pin::Serial1,
            Pin::Serial2,
            Pin::Serial3,
            Pin::Pwm1,
            Pin::Pwm2,
        ],
        dma: Vec::new(),
    };
    assert(board@.peripherals =~= nucleo_f401re_board().peripherals);
    assert(board@.pins =~= nucleo_f401re_board().pins);
    assert(board@.dma =~= nucleo_f401re_board().dma);
    board
}

} // verus!
