//! Helpers of the command-line program: argument values, defaults and the
//! device address that a command is sent to.

use crate::error::RangeError;
use crate::protocol::{is_assignable_address, is_port_index, Address, Port};
use vstd::prelude::*;

verus! {

/// The value of `c` as a digit in base `radix`, if it is one: `0`-`9`, then
/// `a`-`z` or `A`-`Z` from ten on.
pub open spec fn digit_value(c: char, radix: nat) -> Option<nat> {
    let code = c as u32 as int;
    let d: int = if '0' as u32 <= code <= '9' as u32 {
        code - '0' as u32
    } else if 'a' as u32 <= code <= 'z' as u32 {
        code - 'a' as u32 + 10
    } else if 'A' as u32 <= code <= 'Z' as u32 {
        code - 'A' as u32 + 10
    } else {
        radix as int
    };
    if d < radix {
        Some(d as nat)
    } else {
        None
    }
}

/// The value of `digits` in base `radix`, most significant first, if all are digits.
pub open spec fn digits_value(digits: Seq<char>, radix: nat) -> Option<nat>
    decreases digits.len(),
{
    if digits.len() == 0 {
        Some(0)
    } else {
        match (digits_value(digits.drop_last(), radix), digit_value(digits.last(), radix)) {
            (Some(high), Some(low)) => Some(high * radix + low),
            _ => None,
        }
    }
}

/// The byte that `text` spells in base `radix`: an optional `+` and at least
/// one digit, with a value below 256.
pub open spec fn byte_in_radix(text: Seq<char>, radix: nat) -> Option<u8> {
    let digits = if text.len() > 1 && text[0] == '+' {
        text.drop_first()
    } else {
        text
    };
    if digits.len() == 0 {
        None
    } else {
        match digits_value(digits, radix) {
            Some(v) => if v < 256 {
                Some(v as u8)
            } else {
                None
            },
            None => None,
        }
    }
}

/// The byte that `text` spells: hexadecimal after a `0x` or `0X` prefix,
/// decimal otherwise.
pub open spec fn maybe_hex_byte(text: Seq<char>) -> Option<u8> {
    if text.len() >= 2 && text[0] == '0' && (text[1] == 'x' || text[1] == 'X') {
        byte_in_radix(text.subrange(2, text.len() as int), 16)
    } else {
        byte_in_radix(text, 10)
    }
}

/// Relies on clap_num::maybe_hex: text after a `0x` or `0X` prefix is parsed
/// in base 16 and other text in base 10, both with `u8::from_str_radix`; a
/// failure comes back as its message.
#[verifier::external_body]
fn maybe_hex_u8(s: &str) -> (r: Result<u8, String>)
    ensures
        match maybe_hex_byte(s@) {
            Some(v) => r == Ok::<u8, String>(v),
            None => r is Err,
        },
{
    clap_num::maybe_hex::<u8>(s)
}

/// A command-line value that does not name a relay or an address.
#[derive(Debug, Clone, PartialEq, Eq)]
pub enum ArgumentError {
    /// The text is not a number from 0 to 255; holds the parser's message.
    Number(String),
    /// The number is outside the valid range.
    Range(RangeError),
}

/// Parses a relay index, given in decimal or as hexadecimal after `0x`.
pub fn parse_relay(s: &str) -> (r: Result<Port, ArgumentError>)
    ensures
        match maybe_hex_byte(s@) {
            Some(v) => if is_port_index(v) {
                r matches Ok(p) && p@ == v
            } else {
                r matches Err(e) && e == ArgumentError::Range(RangeError::PortOutOfRange(v))
            },
            None => r matches Err(ArgumentError::Number(_)),
        },
{
    match maybe_hex_u8(s) {
        Ok(v) => match Port::try_from(v) {
            Ok(port) => Ok(port),
            Err(e) => Err(ArgumentError::Range(RangeError::PortOutOfRange(e.0))),
        },
        Err(message) => Err(ArgumentError::Number(message)),
    }
}

/// Parses a device address from 1 to 247, given in decimal or as
/// hexadecimal after `0x`.
pub fn parse_address(s: &str) -> (r: Result<Address, ArgumentError>)
    ensures
        match maybe_hex_byte(s@) {
            Some(v) => if is_assignable_address(v) {
                r matches Ok(a) && a@ == v
            } else {
                r matches Err(e) && e == ArgumentError::Range(RangeError::AddressOutOfRange(v))
            },
            None => r matches Err(ArgumentError::Number(_)),
        },
{
    match maybe_hex_u8(s) {
        Ok(v) => match Address::try_from(v) {
            Ok(address) => Ok(address),
            Err(e) => Err(ArgumentError::Range(RangeError::AddressOutOfRange(e.0))),
        },
        Err(message) => Err(ArgumentError::Number(message)),
    }
}

/// The serial device used when none is given: `COM1` on Windows,
/// `/dev/ttyUSB0` elsewhere.
pub fn default_device_name(windows: bool) -> (r: String)
    ensures
        r@ == (if windows {
            "COM1"@
        } else {
            "/dev/ttyUSB0"@
        }),
{
    if windows {
        String::from_str("COM1")
    } else {
        String::from_str("/dev/ttyUSB0")
    }
}

/// The one-line description of the program.
pub fn about_text() -> (r: &'static str)
    ensures
        r@ == "A command-line tool to control R413D08 8-channel relay modules via Modbus TCP or RTU."@,
{
    "A command-line tool to control R413D08 8-channel relay modules via Modbus TCP or RTU."
}

/// The device address that a command goes to on a serial bus.
///
/// A query of the device's address goes to the broadcast address, whatever
/// address was given, as the device's own address is what it asks for; the
/// caller makes sure that one device only is on the bus. Every other command
/// goes to `configured`.
pub fn target_address(query_address: bool, configured: Address) -> (r: Address)
    ensures
        query_address ==> r@ == Address::BROADCAST_VALUE,
        !query_address ==> r == configured,
{
    if query_address {
        Address::broadcast()
    } else {
        configured
    }
}

} // verus!
