//! Serial protocol identities and their intrinsic settings. A protocol's
//! baud rate, parity and stop bits are fixed by the protocol itself, not
//! chosen per board or per system.

use vstd::prelude::*;

verus! {

/// Data bits per frame.
#[derive(Clone, Copy, Debug, PartialEq, Eq, Structural)]
pub enum WordLength {
    DataBits8,
    DataBits9,
}

/// Parity generation and checking.
#[derive(Clone, Copy, Debug, PartialEq, Eq, Structural)]
pub enum Parity {
    ParityNone,
    ParityEven,
    ParityOdd,
}

/// Stop bits per frame.
#[derive(Clone, Copy, Debug, PartialEq, Eq, Structural)]
pub enum StopBits {
    STOP1,
    STOP0P5,
    STOP2,
    STOP1P5,
}

/// Which directions use DMA.
#[derive(Clone, Copy, Debug, PartialEq, Eq, Structural)]
pub enum DmaConfig {
    /// No DMA.
    Off,
    Tx,
    Rx,
    TxRx,
}

/// IrDA SIR mode.
#[derive(Clone, Copy, Debug, PartialEq, Eq, Structural)]
pub enum IrdaMode {
    /// IrDA disabled.
    Off,
    Normal,
    LowPower,
}

/// The settings a UART/USART is initialized with, field for field those of
/// the HAL's serial configuration.
#[derive(Clone, Copy, Debug, PartialEq, Eq, Structural)]
pub struct SerialSettings {
    pub baudrate_bps: u32,
    pub wordlength: WordLength,
    pub parity: Parity,
    pub stopbits: StopBits,
    pub dma: DmaConfig,
    pub irda: IrdaMode,
}

/// The HAL's default serial configuration: 115200 baud, 8 data bits, no
/// parity, 1 stop bit, no DMA, no IrDA.
pub open spec fn hal_default_settings() -> SerialSettings {
    SerialSettings {
        baudrate_bps: 115_200,
        wordlength: WordLength::DataBits8,
        parity: Parity::ParityNone,
        stopbits: StopBits::STOP1,
        dma: DmaConfig::Off,
        irda: IrdaMode::Off,
    }
}

impl Default for SerialSettings {
    /// The HAL's default serial configuration.
    fn default() -> (settings: Self)
        ensures
            settings == hal_default_settings(),
    {
        SerialSettings {
            baudrate_bps: 115_200,
            wordlength: WordLength::DataBits8,
            parity: Parity::ParityNone,
            stopbits: StopBits::STOP1,
            dma: DmaConfig::Off,
            irda: IrdaMode::Off,
        }
    }
}

impl SerialSettings {
    /// The same settings at another baud rate.
    pub fn baudrate(self, baudrate_bps: u32) -> (settings: Self)
        ensures
            settings == (SerialSettings { baudrate_bps, ..self }),
    {
        SerialSettings { baudrate_bps, ..self }
    }

    /// The same settings with even parity.
    pub fn parity_even(self) -> (settings: Self)
        ensures
            settings == (SerialSettings { parity: Parity::ParityEven, ..self }),
    {
        SerialSettings { parity: Parity::ParityEven, ..self }
    }

    /// The same settings with other stop bits.
    pub fn stopbits(self, stopbits: StopBits) -> (settings: Self)
        ensures
            settings == (SerialSettings { stopbits, ..self }),
    {
        SerialSettings { stopbits, ..self }
    }
}

/// The serial protocols firmware can speak on a port.
#[derive(Clone, Copy, Debug, PartialEq, Eq, Structural)]
pub enum SerialProtocol {
    /// FrSky-originated RC link: 100000 baud, even parity, 2 stop bits,
    /// inverted signal (inversion needs hardware; these settings cannot
    /// express it).
    Sbus,
    /// ExpressLRS/Crossfire RC link with telemetry: 420000 baud, 8N1.
    Crsf,
    /// Betaflight/iNav configurator protocol: 115200 baud, 8N1.
    Msp,
    /// MAVLink telemetry: 57600 baud, 8N1.
    Mavlink,
}

/// The name of a protocol's variant.
pub open spec fn serial_protocol_name(p: SerialProtocol) -> Seq<char> {
    match p {
        SerialProtocol::Sbus => "Sbus"@,
        SerialProtocol::Crsf => "Crsf"@,
        SerialProtocol::Msp => "Msp"@,
        SerialProtocol::Mavlink => "Mavlink"@,
    }
}

/// The settings a protocol fixes: the HAL default at the protocol's baud
/// rate, with even parity and 2 stop bits for SBUS.
pub open spec fn protocol_settings(protocol: SerialProtocol) -> SerialSettings {
    match protocol {
        SerialProtocol::Sbus => SerialSettings {
            baudrate_bps: 100_000,
            parity: Parity::ParityEven,
            stopbits: StopBits::STOP2,
            ..hal_default_settings()
        },
        SerialProtocol::Crsf => SerialSettings { baudrate_bps: 420_000, ..hal_default_settings() },
        SerialProtocol::Msp => SerialSettings { baudrate_bps: 115_200, ..hal_default_settings() },
        SerialProtocol::Mavlink => SerialSettings {
            baudrate_bps: 57_600,
            ..hal_default_settings()
        },
    }
}

impl SerialProtocol {
    /// The settings this protocol fixes.
    pub fn serial_config(self) -> (settings: SerialSettings)
        ensures
            settings == protocol_settings(self),
    {
        match self {
            SerialProtocol::Sbus => SerialSettings::default().baudrate(100_000).parity_even().stopbits(
                StopBits::STOP2,
            ),
            SerialProtocol::Crsf => SerialSettings::default().baudrate(420_000),
            SerialProtocol::Msp => SerialSettings::default().baudrate(115_200),
            SerialProtocol::Mavlink => SerialSettings::default().baudrate(57_600),
        }
    }
}

/// The settings of an enabled port that no protocol has claimed: a generic
/// 115200 baud default.
pub fn default_serial_config() -> (settings: SerialSettings)
    ensures
        settings == (SerialSettings { baudrate_bps: 115_200, ..hal_default_settings() }),
{
    SerialSettings::default().baudrate(115_200)
}

/// The settings of a port: its routed protocol's, or the generic default
/// when unrouted.
pub fn resolve(route: Option<SerialProtocol>) -> (settings: SerialSettings)
    ensures
        settings == match route {
            Some(protocol) => protocol_settings(protocol),
            None => SerialSettings { baudrate_bps: 115_200, ..hal_default_settings() },
        },
{
    match route {
        Some(protocol) => protocol.serial_config(),
        None => default_serial_config(),
    }
}

} // verus!
