//! The register map: which register each command writes and with what data,
//! and which registers each read covers.
//!
//! Every command of the module is exactly one "Write Single Register" (0x06)
//! of a [`RegisterCommand`]; every query is exactly one "Read Holding
//! Registers" (0x03) of a [`RegisterRead`].

use crate::client::{spec_map_tokio_result, map_tokio_result, ClientError};
use crate::protocol::{Address, Port, PortStates, PortsAll, Word};
use vstd::prelude::*;

verus! {

/// One register write: `data` written to register `address`.
#[derive(Debug, Clone, Copy, PartialEq, Eq, Structural)]
pub struct RegisterCommand {
    pub address: u16,
    pub data: Word,
}

/// One register read: `quantity` consecutive registers from `address` on.
#[derive(Debug, Clone, Copy, PartialEq, Eq, Structural)]
pub struct RegisterRead {
    pub address: u16,
    pub quantity: u16,
}

/// The write of `data` to the command register of `port`.
pub open spec fn port_command(port: Port, data: Word) -> RegisterCommand {
    RegisterCommand { address: port.spec_register_address(), data }
}

impl RegisterCommand {
    /// Opens `port` (turns the relay on).
    pub fn set_port_open(port: Port) -> (r: Self)
        ensures
            r == port_command(port, Port::REG_DATA_SET_PORT_OPEN),
    {
        Self { address: port.address_for_write_register(), data: Port::REG_DATA_SET_PORT_OPEN }
    }

    /// Closes `port` (turns the relay off).
    pub fn set_port_close(port: Port) -> (r: Self)
        ensures
            r == port_command(port, Port::REG_DATA_SET_PORT_CLOSE),
    {
        Self { address: port.address_for_write_register(), data: Port::REG_DATA_SET_PORT_CLOSE }
    }

    /// Toggles `port` between open and closed.
    pub fn set_port_toggle(port: Port) -> (r: Self)
        ensures
            r == port_command(port, Port::REG_DATA_SET_PORT_TOGGLE),
    {
        Self { address: port.address_for_write_register(), data: Port::REG_DATA_SET_PORT_TOGGLE }
    }

    /// Opens `port` and closes every other relay.
    pub fn set_port_latch(port: Port) -> (r: Self)
        ensures
            r == port_command(port, Port::REG_DATA_SET_PORT_LATCH),
    {
        Self { address: port.address_for_write_register(), data: Port::REG_DATA_SET_PORT_LATCH }
    }

    /// Opens `port` for about one second, after which the module closes it.
    pub fn set_port_momentary(port: Port) -> (r: Self)
        ensures
            r == port_command(port, Port::REG_DATA_SET_PORT_MOMENTARY),
    {
        Self {
            address: port.address_for_write_register(),
            data: Port::REG_DATA_SET_PORT_MOMENTARY,
        }
    }

    /// Opens `port` and lets the module close it after `delay` seconds.
    pub fn set_port_delay(port: Port, delay: u8) -> (r: Self)
        ensures
            r == port_command(port, Port::spec_delay_data(delay)),
    {
        Self {
            address: port.address_for_write_register(),
            data: Port::encode_delay_for_write_register(delay),
        }
    }

    /// Opens all relays.
    pub fn set_all_open() -> (r: Self)
        ensures
            r == (RegisterCommand { address: PortsAll::ADDRESS, data: PortsAll::REG_DATA_SET_ALL_OPEN }),
    {
        Self { address: PortsAll::ADDRESS, data: PortsAll::REG_DATA_SET_ALL_OPEN }
    }

    /// Closes all relays.
    pub fn set_all_close() -> (r: Self)
        ensures
            r == (RegisterCommand { address: PortsAll::ADDRESS, data: PortsAll::REG_DATA_SET_ALL_CLOSE }),
    {
        Self { address: PortsAll::ADDRESS, data: PortsAll::REG_DATA_SET_ALL_CLOSE }
    }

    /// Gives the device the new address `address`.
    ///
    /// The write must reach the device at its current address; the device
    /// answers at `address` from then on.
    pub fn set_address(address: Address) -> (r: Self)
        ensures
            r == (RegisterCommand { address: Address::ADDRESS, data: address.spec_encode() }),
    {
        Self { address: Address::ADDRESS, data: address.encode_for_write_register() }
    }
}

impl RegisterRead {
    /// The read of the states of all relays.
    pub fn ports() -> (r: Self)
        ensures
            r == (RegisterRead { address: PortStates::ADDRESS, quantity: PortStates::QUANTITY }),
    {
        Self { address: PortStates::ADDRESS, quantity: PortStates::QUANTITY }
    }

    /// The read of the device's own address.
    ///
    /// The device answers it at its current address and at the broadcast
    /// address; the latter only serves where it is the one device on the bus.
    pub fn address() -> (r: Self)
        ensures
            r == (RegisterRead { address: Address::ADDRESS, quantity: Address::QUANTITY }),
    {
        Self { address: Address::ADDRESS, quantity: Address::QUANTITY }
    }
}

/// Completes an address change for a client that follows the device to its
/// new address.
///
/// `result` is the transport's outcome of writing
/// [`RegisterCommand::set_address`]`(address)`. Besides the request's result,
/// this gives the device address that later requests must go to: `address`
/// once the write succeeded, and no change otherwise.
pub fn complete_set_address(address: Address, result: tokio_modbus::Result<()>) -> (r: (
    Result<(), ClientError>,
    Option<u8>,
))
    ensures
        r.0 == spec_map_tokio_result(result),
        r.1 == (if result matches Ok(Ok(_)) {
            Some(address@)
        } else {
            None::<u8>
        }),
{
    match map_tokio_result(result) {
        Ok(()) => (Ok(()), Some(address.value())),
        Err(e) => (Err(e), None),
    }
}

} // verus!
