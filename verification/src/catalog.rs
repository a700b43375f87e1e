//! Shared build-time data: chip-family facts, system/firmware configuration,
//! and board (physical hardware) manifests.
//!
//! A board declares only which peripherals, pins and DMA mappings it enables,
//! not how to build them.

pub mod boards;
pub mod chips;
pub mod items;
pub mod laws;
pub mod systems;

pub use chips::{Chip, ChipConfig, Part};
pub use items::{BoardConfig, Dma, Peripheral, Pin, Protocol};
pub use systems::{all_systems, system_config, ClockSelection, SerialRoute, SystemConfig};
