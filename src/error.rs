//! Errors of the value constructors.

use vstd::prelude::*;

verus! {

/// A relay index or a device address outside its valid range.
#[derive(Debug, Clone, Copy, PartialEq, Eq, Structural)]
pub enum RangeError {
    /// A relay index above 7; holds the refused value.
    PortOutOfRange(u8),
    /// An address outside 1..=247; holds the refused value.
    AddressOutOfRange(u8),
}

} // verus!
