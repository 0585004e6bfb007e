//! Interpretation of the transport's outcomes.
//!
//! The transport performs the two Modbus functions that the module answers and
//! hands back a `tokio_modbus::Result`: an I/O or protocol failure, a Modbus
//! exception from the device, or the response. The functions here turn that
//! outcome into this crate's result: they keep the three cases apart and
//! decode what was read. None of them retries.

use crate::protocol::{
    address_of_words, is_assignable_address, states_of_words, Address, DecodeError, PortStates,
    Word,
};
use vstd::prelude::*;

verus! {

/// An exception code that a Modbus device sent back instead of a response.
#[verifier::external_type_specification]
#[verifier::external_body]
pub struct ExExceptionCode(tokio_modbus::ExceptionCode);

/// A failure of the Modbus transport: I/O, timeout, or a mismatching response.
#[verifier::external_type_specification]
#[verifier::external_body]
pub struct ExModbusError(tokio_modbus::Error);

/// Why a request to the module failed.
#[derive(Debug)]
pub enum ClientError {
    /// The device answered with a Modbus exception.
    Exception(tokio_modbus::ExceptionCode),
    /// The transport failed before a valid answer came.
    Transport(tokio_modbus::Error),
    /// The registers read do not hold a valid value.
    Decode(DecodeError),
}

/// The result of a request whose transport outcome was `result`.
pub open spec fn spec_map_tokio_result<T>(result: tokio_modbus::Result<T>) -> Result<T, ClientError> {
    match result {
        Ok(Ok(value)) => Ok(value),
        Ok(Err(code)) => Err(ClientError::Exception(code)),
        Err(err) => Err(ClientError::Transport(err)),
    }
}

/// Turns a transport outcome into a result: a device exception becomes
/// [`ClientError::Exception`], a transport failure [`ClientError::Transport`].
pub fn map_tokio_result<T>(result: tokio_modbus::Result<T>) -> (r: Result<T, ClientError>)
    ensures
        r == spec_map_tokio_result(result),
{
    match result {
        Ok(Ok(value)) => Ok(value),
        Ok(Err(code)) => Err(ClientError::Exception(code)),
        Err(err) => Err(ClientError::Transport(err)),
    }
}

/// Decodes the outcome of reading [`PortStates::QUANTITY`] registers at
/// [`PortStates::ADDRESS`].
pub fn decode_ports_response(result: tokio_modbus::Result<Vec<Word>>) -> (r: Result<
    PortStates,
    ClientError,
>)
    ensures
        r is Ok <==> result matches Ok(Ok(_)),
        result matches Ok(Ok(words)) ==> r matches Ok(states) && states@ == states_of_words(
            words@,
        ),
        result matches Ok(Err(code)) ==> r matches Err(e) && e == ClientError::Exception(code),
        result matches Err(err) ==> r matches Err(e) && e == ClientError::Transport(err),
{
    match map_tokio_result(result) {
        Ok(words) => Ok(PortStates::decode_from_holding_registers(words.as_slice())),
        Err(e) => Err(e),
    }
}

/// Decodes the outcome of reading the device's address register
/// ([`Address::ADDRESS`]). A read that returned no word or a value that no
/// device can have is [`ClientError::Decode`].
pub fn decode_address_response(result: tokio_modbus::Result<Vec<Word>>) -> (r: Result<
    Address,
    ClientError,
>)
    ensures
        r is Ok <==> (result matches Ok(Ok(words)) && address_of_words(words@) is Ok),
        result matches Ok(Ok(words)) ==> match address_of_words(words@) {
            Ok(value) => r matches Ok(a) && a@ == value,
            Err(d) => r matches Err(e) && e == ClientError::Decode(d),
        },
        r matches Ok(a) ==> is_assignable_address(a@),
        result matches Ok(Err(code)) ==> r matches Err(e) && e == ClientError::Exception(code),
        result matches Err(err) ==> r matches Err(e) && e == ClientError::Transport(err),
{
    match map_tokio_result(result) {
        Ok(words) => match Address::decode_from_holding_registers(words.as_slice()) {
            Ok(address) => Ok(address),
            Err(d) => Err(ClientError::Decode(d)),
        },
        Err(e) => Err(e),
    }
}

} // verus!
