//! Serial line settings of the module for Modbus RTU.
//!
//! The module talks at 9600 baud, 8 data bits, no parity, one stop bit and
//! no flow control. [`serial_port_builder`] gives those settings for a
//! serial device; the program that opens the line builds its serial port
//! from them.

use vstd::prelude::*;

verus! {

/// Parity checking of a serial line.
#[derive(Debug, Clone, Copy, PartialEq, Eq, Structural)]
pub enum Parity {
    Disabled,
    Odd,
    Even,
}

/// Number of stop bits of a serial line.
#[derive(Debug, Clone, Copy, PartialEq, Eq, Structural)]
pub enum StopBits {
    One,
    Two,
}

/// Number of data bits of a serial line.
#[derive(Debug, Clone, Copy, PartialEq, Eq, Structural)]
pub enum DataBits {
    Five,
    Six,
    Seven,
    Eight,
}

/// Flow control of a serial line.
#[derive(Debug, Clone, Copy, PartialEq, Eq, Structural)]
pub enum FlowControl {
    Disabled,
    Software,
    Hardware,
}

/// The parity of the module's line.
pub const PARITY: Parity = Parity::Disabled;

/// The stop bits of the module's line.
pub const STOP_BITS: StopBits = StopBits::One;

/// The data bits of the module's line.
pub const DATA_BITS: DataBits = DataBits::Eight;

/// The baud rate of the module's line.
pub const BAUD_RATE: u32 = 9600;

/// The settings of a serial line: the device path and how it is driven.
#[derive(Debug, Clone, PartialEq, Eq)]
pub struct SerialPortSettings {
    pub path: String,
    pub baud_rate: u32,
    pub parity: Parity,
    pub stop_bits: StopBits,
    pub data_bits: DataBits,
    pub flow_control: FlowControl,
}

/// The line settings of the module on the serial device `device`.
pub fn serial_port_builder(device: &String) -> (r: SerialPortSettings)
    ensures
        r.path@ == device@,
        r.baud_rate == BAUD_RATE,
        r.parity == PARITY,
        r.stop_bits == STOP_BITS,
        r.data_bits == DATA_BITS,
        r.flow_control == FlowControl::Disabled,
{
    SerialPortSettings {
        path: device.clone(),
        baud_rate: BAUD_RATE,
        parity: PARITY,
        stop_bits: STOP_BITS,
        data_bits: DATA_BITS,
        flow_control: FlowControl::Disabled,
    }
}

} // verus!
