//! The chargers on their own CAN bus, and how a pack of them shares a charge current.
pub mod can;
pub mod charger;
pub mod pack;

pub use pack::TcChargerPack;
