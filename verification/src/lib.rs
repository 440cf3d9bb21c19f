//! Verified core of the charging firmware: physical quantities, the CAN
//! protocols of the battery and the chargers, and the control decisions.
pub mod arith;
pub mod physical_values;
pub mod clock;
pub mod volatile_value;
pub mod buffer_tool;
pub mod zero;
pub mod tc_charger;
pub mod cooling;
pub mod evse;
pub mod ring_buffer;
pub mod log_to_uart;
pub mod charge_ctrl;
