//! Protocol and command layer for an 8-channel Modbus relay module.
//!
//! The module answers two Modbus functions: "read holding registers" (0x03)
//! and "write single register" (0x06). This crate holds everything that sits
//! between those two calls and the device's features: the validated value
//! types, the register map, the codec between register words and values, and
//! the interpretation of transport outcomes. The transport itself is supplied
//! by the caller.

pub mod protocol;
pub mod error;
pub mod client;
pub mod command;
pub mod tokio_serial;
pub mod commandline;
