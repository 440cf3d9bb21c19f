//! The CAN protocol of the battery pack and motor controller of the motorcycle,
//! and the state collected from it.
pub mod msgs;
pub mod state;
pub mod types;

pub use state::{CellStats, CellVoltages, Mode, TemperatureRange, ZeroState};
