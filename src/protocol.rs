//! Value types, register map and codec of the relay module.
//!
//! - [`PortState`] and [`PortStates`]: the decoded state of one relay and of all eight.
//! - [`Port`]: a validated 0-based channel index.
//! - [`Address`]: a validated Modbus device address.
//! - [`PortsAll`]: the register that addresses all relays at once.
//!
//! Reads use "Read Holding Registers" (0x03) and commands use
//! "Write Single Register" (0x06).

use vstd::prelude::*;

verus! {

/// A single 16-bit value stored in a Modbus register.
pub type Word = u16;

/// The number of relays on the module.
pub const NUMBER_OF_PORTS: usize = 8;

/// The state of one relay.
#[derive(Debug, Clone, Copy, PartialEq, Eq, Hash, Structural)]
pub enum PortState {
    /// The relay is off.
    Close,
    /// The relay is on.
    Open,
}

/// The state that a register word stands for: zero is closed, any other value is open.
pub open spec fn state_of_word(word: u16) -> PortState {
    if word == 0 {
        PortState::Close
    } else {
        PortState::Open
    }
}

impl PortState {
    /// Decodes the state of one relay from its holding register.
    ///
    /// `0x0000` is [`PortState::Close`]; every other value, not only `0x0001`, is
    /// [`PortState::Open`].
    pub fn decode_from_holding_registers(word: Word) -> (r: Self)
        ensures
            r == state_of_word(word),
    {
        if word != 0 {
            Self::Open
        } else {
            Self::Close
        }
    }

    /// The name of this state: `"close"` or `"open"`.
    pub fn as_str(&self) -> (r: &'static str)
        ensures
            r@ == state_text(*self),
    {
        match self {
            Self::Close => "close",
            Self::Open => "open",
        }
    }

    /// The name of this state as an owned string, see [`PortState::as_str`].
    pub fn to_string(&self) -> (r: String)
        ensures
            r@ == state_text(*self),
    {
        String::from_str(self.as_str())
    }
}

/// The name of a relay state.
pub open spec fn state_text(state: PortState) -> Seq<char> {
    match state {
        PortState::Close => "close"@,
        PortState::Open => "open"@,
    }
}

/// The names of relay states, separated by `", "`.
pub open spec fn states_text(states: Seq<PortState>) -> Seq<char>
    decreases states.len(),
{
    if states.len() == 0 {
        Seq::empty()
    } else if states.len() == 1 {
        state_text(states[0])
    } else {
        states_text(states.drop_last()) + ", "@ + state_text(states.last())
    }
}


/// The states of all relays that a read of `words` stands for: the first eight
/// words in order, and closed relays where fewer words came.
pub open spec fn states_of_words(words: Seq<u16>) -> Seq<PortState> {
    Seq::new(
        NUMBER_OF_PORTS as nat,
        |i: int|
            if i < words.len() {
                state_of_word(words[i])
            } else {
                PortState::Close
            },
    )
}

/// Decoding the relay states reads the first [`NUMBER_OF_PORTS`] words only:
/// words after those change nothing.
pub proof fn lemma_extra_words_ignored(words: Seq<u16>, extra: Seq<u16>)
    requires
        words.len() >= NUMBER_OF_PORTS,
    ensures
        states_of_words(words + extra) == states_of_words(words),
{
    assert(states_of_words(words + extra) =~= states_of_words(words));
}

/// The states of all [`NUMBER_OF_PORTS`] relays, in port order.
#[derive(Debug, Clone, Copy, PartialEq, Eq, Hash)]
pub struct PortStates([PortState; NUMBER_OF_PORTS]);

impl View for PortStates {
    type V = Seq<PortState>;

    closed spec fn view(&self) -> Seq<PortState> {
        self.0@
    }
}

impl PortStates {
    /// The first register of the relay states, read with function 0x03.
    pub const ADDRESS: u16 = 0x0001;

    /// The number of registers that hold the relay states.
    pub const QUANTITY: u16 = 8;

    /// Decodes the states of all relays from the registers read at [`PortStates::ADDRESS`].
    ///
    /// Each word is decoded with [`PortState::decode_from_holding_registers`].
    /// Where fewer than [`NUMBER_OF_PORTS`] words came, the remaining relays are
    /// [`PortState::Close`]; words beyond that count are ignored.
    pub fn decode_from_holding_registers(words: &[Word]) -> (r: Self)
        ensures
            r@ == states_of_words(words@),
    {
        let mut port_states = [PortState::Close; NUMBER_OF_PORTS];
        let count: usize = if words.len() < NUMBER_OF_PORTS {
            words.len()
        } else {
            NUMBER_OF_PORTS
        };
        let mut i: usize = 0;
        while i < count
            invariant
                i <= count,
                count <= NUMBER_OF_PORTS,
                count <= words@.len(),
                count == words@.len() || count == NUMBER_OF_PORTS,
                port_states@.len() == NUMBER_OF_PORTS,
                forall|j: int| 0 <= j < i ==> port_states@[j] == state_of_word(words@[j]),
                forall|j: int| i <= j < NUMBER_OF_PORTS ==> port_states@[j] == PortState::Close,
            decreases count - i,
        {
            port_states[i] = PortState::decode_from_holding_registers(words[i]);
            i += 1;
        }
        let r = Self(port_states);
        assert(r@ =~= states_of_words(words@));
        r
    }

    /// The states `states`, in port order.
    pub fn from_array(states: [PortState; NUMBER_OF_PORTS]) -> (r: Self)
        ensures
            r@ == states@,
    {
        Self(states)
    }

    /// The underlying array of relay states.
    pub fn as_array(&self) -> (r: &[PortState; NUMBER_OF_PORTS])
        ensures
            r@ == self@,
    {
        &self.0
    }

    /// An iterator over the relay states in port order.
    pub fn iter(&self) -> (r: std::slice::Iter<'_, PortState>)
        ensures
            vstd::std_specs::slice::into_iter_elts(r) == self@,
    {
        self.0.iter()
    }

    /// The relay states as text, e.g. `"open, close, close, close, close, close, close, close"`.
    pub fn to_string(&self) -> (r: String)
        ensures
            r@ == states_text(self@),
    {
        let mut text = String::new();
        let mut i: usize = 0;
        while i < NUMBER_OF_PORTS
            invariant
                i <= NUMBER_OF_PORTS,
                self.0@.len() == NUMBER_OF_PORTS,
                text@ == states_text(self.0@.take(i as int)),
            decreases NUMBER_OF_PORTS - i,
        {
            if i > 0 {
                text.append(", ");
            }
            text.append(self.0[i].as_str());
            proof {
                let next = self.0@.take(i + 1);
                assert(next.drop_last() =~= self.0@.take(i as int));
                assert(next.last() == self.0@[i as int]);
                if i == 0 {
                    assert(text@ =~= states_text(next));
                }
            }
            i += 1;
        }
        assert(self.0@.take(NUMBER_OF_PORTS as int) =~= self@);
        text
    }
}


/// A validated 0-based relay index, from [`Port::MIN`] to [`Port::MAX`].
///
/// The command register of a relay is its 1-based number, see
/// [`Port::address_for_write_register`]; the value written there selects the action.
#[derive(Debug, Clone, Copy, PartialEq, Eq, Hash)]
pub struct Port(u8);

impl View for Port {
    type V = u8;

    closed spec fn view(&self) -> u8 {
        self.0
    }
}

/// Whether `value` is a valid 0-based relay index.
pub open spec fn is_port_index(value: u8) -> bool {
    value <= Port::MAX
}

impl Port {
    /// The smallest relay index.
    pub const MIN: u8 = 0;

    /// The largest relay index.
    pub const MAX: u8 = 7;

    /// Data that opens the relay (turns it on).
    pub const REG_DATA_SET_PORT_OPEN: Word = 0x0100;

    /// Data that closes the relay (turns it off).
    pub const REG_DATA_SET_PORT_CLOSE: Word = 0x0200;

    /// Data that toggles the relay ("self-locking").
    pub const REG_DATA_SET_PORT_TOGGLE: Word = 0x0300;

    /// Data that opens the relay and closes all others ("inter-locking").
    pub const REG_DATA_SET_PORT_LATCH: Word = 0x0400;

    /// Data that opens the relay for about one second ("non-locking").
    pub const REG_DATA_SET_PORT_MOMENTARY: Word = 0x0500;

    /// Base data of a delayed close; the delay in seconds goes in the low byte.
    pub const REG_DATA_SET_PORT_DELAY: Word = 0x0600;

    #[verifier::type_invariant]
    spec fn index_in_range(self) -> bool {
        is_port_index(self.0)
    }

    /// The command register of this relay: its 1-based number.
    pub open spec fn spec_register_address(self) -> u16 {
        (self@ + 1) as u16
    }

    /// The data of a delayed close after `delay` seconds.
    pub open spec fn spec_delay_data(delay: u8) -> u16 {
        (Self::REG_DATA_SET_PORT_DELAY + delay) as u16
    }

    /// The 0-based index of this relay.
    pub fn index(&self) -> (r: u8)
        ensures
            r == self@,
            is_port_index(r),
    {
        proof {
            use_type_invariant(self);
        }
        self.0
    }

    /// Returns the register that commands this relay, written with function 0x06.
    ///
    /// Registers are 1-based: index 0 is register `0x0001`.
    pub fn address_for_write_register(&self) -> (r: u16)
        ensures
            r == self.spec_register_address(),
            r == self@ + 1,
            1 <= r <= 8,
    {
        proof {
            use_type_invariant(self);
        }
        (self.0 + 1) as u16
    }

    /// Encodes the data of a delayed close: [`Port::REG_DATA_SET_PORT_DELAY`]
    /// in the high byte and `delay` seconds in the low byte.
    pub fn encode_delay_for_write_register(delay: u8) -> (r: Word)
        ensures
            r == Self::spec_delay_data(delay),
            r == 0x0600 + delay,
    {
        Self::REG_DATA_SET_PORT_DELAY + (delay as Word)
    }

    /// Makes a port from a 0-based index, refusing values above [`Port::MAX`]
    /// with the offending value.
    pub fn try_from(value: u8) -> (r: Result<Port, ErrorPortOutOfRange>)
        ensures
            r is Ok <==> is_port_index(value),
            r matches Ok(p) ==> p@ == value && p.spec_register_address() == value + 1,
            r matches Err(e) ==> e == ErrorPortOutOfRange(value),
    {
        if Self::MIN <= value && value <= Self::MAX {
            Ok(Self(value))
        } else {
            Err(ErrorPortOutOfRange(value))
        }
    }
}

/// Gives the 0-based relay index.
impl core::ops::Deref for Port {
    type Target = u8;

    fn deref(&self) -> (r: &u8)
        ensures
            *r == self@,
    {
        &self.0
    }
}

/// Gives the address value.
impl core::ops::Deref for Address {
    type Target = u8;

    fn deref(&self) -> (r: &u8)
        ensures
            *r == self@,
    {
        &self.0
    }
}

/// The lower-case hexadecimal digit of `n`, for `n` below 16.
pub open spec fn hex_digit(n: int) -> Seq<char> {
    "0123456789abcdef"@.subrange(n, n + 1)
}

/// An address value as text: `0x` and two lower-case hexadecimal digits.
pub open spec fn address_text(value: u8) -> Seq<char> {
    "0x"@ + hex_digit(value as int / 16) + hex_digit(value as int % 16)
}

/// A relay index as text: its decimal digit.
pub open spec fn port_text(index: u8) -> Seq<char> {
    "0123456789"@.subrange(index as int, index + 1)
}

impl Port {
    /// This relay's index as text, e.g. `"3"`.
    pub fn to_string(&self) -> (r: String)
        ensures
            r@ == port_text(self@),
    {
        proof {
            use_type_invariant(self);
            reveal_strlit("0123456789");
        }
        let digits = "0123456789";
        let i = self.0 as usize;
        String::from_str(digits.substring_char(i, i + 1))
    }
}

/// A relay index outside [`Port::MIN`]..=[`Port::MAX`]; holds the refused value.
#[derive(Debug, Clone, Copy, PartialEq, Eq, Structural)]
pub struct ErrorPortOutOfRange(pub u8);

/// The register that commands all relays at once.
pub struct PortsAll;

impl PortsAll {
    /// The register written with function 0x06 to command all relays.
    pub const ADDRESS: u16 = 0x0000;

    /// Data that opens all relays.
    pub const REG_DATA_SET_ALL_OPEN: Word = 0x0700;

    /// Data that closes all relays.
    pub const REG_DATA_SET_ALL_CLOSE: Word = 0x0800;
}


/// A Modbus device address: an assignable one, from [`Address::MIN`] to
/// [`Address::MAX`], or the broadcast address.
#[derive(Debug, Clone, Copy, PartialEq, Eq, Hash)]
pub struct Address(u8);

impl View for Address {
    type V = u8;

    closed spec fn view(&self) -> u8 {
        self.0
    }
}

/// Whether `value` is an address that a device can be given.
pub open spec fn is_assignable_address(value: u8) -> bool {
    Address::MIN <= value <= Address::MAX
}

/// What decoding the address register from `words` gives, over the address's value.
pub open spec fn address_of_words(words: Seq<u16>) -> Result<u8, DecodeError> {
    if words.len() == 0 {
        Err(DecodeError::Empty)
    } else if is_assignable_address(words[0] as u8) {
        Ok(words[0] as u8)
    } else {
        Err(DecodeError::OutOfRange(words[0] as u8))
    }
}

/// The value of a decoded address, with the error unchanged.
pub open spec fn address_result_view(r: Result<Address, DecodeError>) -> Result<u8, DecodeError> {
    match r {
        Ok(a) => Ok(a@),
        Err(e) => Err(e),
    }
}

impl Address {
    /// The register that holds the device's own address: read with function
    /// 0x03, written with function 0x06.
    pub const ADDRESS: u16 = 0x00FF;

    /// The number of registers that hold the device's address.
    pub const QUANTITY: u16 = 1;

    /// The smallest assignable address.
    pub const MIN: u8 = 1;

    /// The largest assignable address.
    pub const MAX: u8 = 247;

    /// The value of the broadcast address.
    pub const BROADCAST_VALUE: u8 = 0xFF;

    #[verifier::type_invariant]
    spec fn value_in_range(self) -> bool {
        is_assignable_address(self.0) || self.0 == Self::BROADCAST_VALUE
    }

    /// The word that writes this address to the address register.
    pub open spec fn spec_encode(self) -> u16 {
        self@ as u16
    }

    /// The broadcast address (`0xFF`).
    ///
    /// Every device on the bus answers it, so it serves to read the address of
    /// the one device on a bus. No device can be given this address.
    pub fn broadcast() -> (r: Address)
        ensures
            r@ == Self::BROADCAST_VALUE,
    {
        Address(Self::BROADCAST_VALUE)
    }

    /// The value of this address.
    pub fn value(&self) -> (r: u8)
        ensures
            r == self@,
            is_assignable_address(r) || r == Self::BROADCAST_VALUE,
    {
        proof {
            use_type_invariant(self);
        }
        self.0
    }

    /// Makes an address from its value, refusing 0 and everything above
    /// [`Address::MAX`], the broadcast value included.
    pub fn try_from(value: u8) -> (r: Result<Address, ErrorAddressOutOfRange>)
        ensures
            r is Ok <==> is_assignable_address(value),
            r matches Ok(a) ==> a@ == value,
            r matches Err(e) ==> e == ErrorAddressOutOfRange(value),
    {
        if Self::MIN <= value && value <= Self::MAX {
            Ok(Self(value))
        } else {
            Err(ErrorAddressOutOfRange(value))
        }
    }

    /// Decodes the device address from the words read at [`Address::ADDRESS`].
    ///
    /// Only the first word counts, truncated to its low byte. An empty read is
    /// [`DecodeError::Empty`]; a value that no device can have is
    /// [`DecodeError::OutOfRange`], as a device answering it is out of order.
    pub fn decode_from_holding_registers(words: &[Word]) -> (r: Result<Address, DecodeError>)
        ensures
            address_result_view(r) == address_of_words(words@),
            r matches Ok(a) ==> is_assignable_address(a@),
    {
        if words.len() == 0 {
            return Err(DecodeError::Empty);
        }
        let value = words[0] as u8;
        match Self::try_from(value) {
            Ok(address) => Ok(address),
            Err(_) => Err(DecodeError::OutOfRange(value)),
        }
    }

    /// Encodes this address as the word written to [`Address::ADDRESS`].
    pub fn encode_for_write_register(&self) -> (r: Word)
        ensures
            r == self.spec_encode(),
            r == self@,
    {
        self.0 as u16
    }
}

impl Address {
    /// This address as text, e.g. `"0x01"` or `"0xf7"`.
    pub fn to_string(&self) -> (r: String)
        ensures
            r@ == address_text(self@),
    {
        proof {
            reveal_strlit("0123456789abcdef");
        }
        let digits = "0123456789abcdef";
        let high = (self.0 / 16) as usize;
        let low = (self.0 % 16) as usize;
        let mut text = String::from_str("0x");
        text.append(digits.substring_char(high, high + 1));
        text.append(digits.substring_char(low, low + 1));
        text
    }
}

impl Default for Address {
    /// The factory address of the module, `0x01`.
    fn default() -> (r: Address)
        ensures
            r@ == 1,
    {
        Address(0x01)
    }
}

/// An address value outside [`Address::MIN`]..=[`Address::MAX`]; holds the refused value.
#[derive(Debug, Clone, Copy, PartialEq, Eq, Structural)]
pub struct ErrorAddressOutOfRange(pub u8);

/// A register read that does not decode to the value it should hold.
#[derive(Debug, Clone, Copy, PartialEq, Eq, Structural)]
pub enum DecodeError {
    /// The read returned no word.
    Empty,
    /// The device reported a value outside the valid range; holds that value.
    OutOfRange(u8),
}

/// Decoding the word that encodes an assignable address gives that address
/// back: every result that [`Address::decode_from_holding_registers`] may
/// return on that one word is `Ok(a)`.
pub proof fn lemma_address_round_trip(a: Address)
    requires
        is_assignable_address(a@),
    ensures
        address_of_words(seq![a.spec_encode()]) == Ok::<u8, DecodeError>(a@),
        forall|r: Result<Address, DecodeError>|
            address_result_view(r) == address_of_words(seq![a.spec_encode()]) ==> r == Ok::<
                Address,
                DecodeError,
            >(a),
{
    let v: u8 = a@;
    assert((v as u16) as u8 == v) by (bit_vector);
}

} // verus!
