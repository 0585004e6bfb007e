use r413d08_lib::protocol::{
    Address, DecodeError, ErrorAddressOutOfRange, ErrorPortOutOfRange, Port, PortState,
    PortStates, PortsAll, NUMBER_OF_PORTS,
};

// --- Address ---

#[test]
fn address_try_from_validation() {
    assert!(matches!(
        Address::try_from(0),
        Err(ErrorAddressOutOfRange(0))
    ));
    assert!(matches!(Address::try_from(Address::MIN), Ok(a) if *a == 1));
    assert!(matches!(Address::try_from(Address::MAX), Ok(a) if *a == 247));
    assert!(matches!(
        Address::try_from(Address::MAX + 1),
        Err(ErrorAddressOutOfRange(248))
    ));
    assert!(matches!(
        Address::try_from(255),
        Err(ErrorAddressOutOfRange(255))
    ));
    assert!(matches!(Address::try_from(100), Ok(a) if *a == 100));
}

#[test]
fn address_default() {
    assert_eq!(Address::default(), Address::try_from(1).unwrap());
}

#[test]
fn address_encode_decode() {
    let addr = Address::try_from(42).unwrap();
    let encoded = addr.encode_for_write_register();
    assert_eq!(encoded, 42u16);
    let decoded = Address::decode_from_holding_registers(&[encoded]).unwrap();
    assert_eq!(decoded, addr);
}

#[test]
fn address_decode_valid() {
    assert_eq!(
        Address::decode_from_holding_registers(&[0x0001]).unwrap(),
        Address::try_from(1).unwrap()
    );
    assert_eq!(
        Address::decode_from_holding_registers(&[0x00F7]).unwrap(),
        Address::try_from(247).unwrap()
    );
}

#[test]
fn address_decode_empty_is_an_error() {
    assert_eq!(
        Address::decode_from_holding_registers(&[]),
        Err(DecodeError::Empty)
    );
}

#[test]
fn address_decode_zero_is_out_of_range() {
    assert_eq!(
        Address::decode_from_holding_registers(&[0x0000]),
        Err(DecodeError::OutOfRange(0))
    );
}

#[test]
fn address_decode_high_is_out_of_range() {
    assert_eq!(
        Address::decode_from_holding_registers(&[0x00F8]),
        Err(DecodeError::OutOfRange(248))
    );
    assert_eq!(
        Address::decode_from_holding_registers(&[0x00FF]),
        Err(DecodeError::OutOfRange(255))
    );
}

#[test]
fn address_decode_uses_low_byte_of_first_word() {
    assert_eq!(
        Address::decode_from_holding_registers(&[0x0105, 0x0009]).unwrap(),
        Address::try_from(5).unwrap()
    );
    assert_eq!(
        Address::decode_from_holding_registers(&[0x0100]),
        Err(DecodeError::OutOfRange(0))
    );
}

#[test]
fn address_round_trip_for_every_assignable_value() {
    for v in Address::MIN..=Address::MAX {
        let a = Address::try_from(v).unwrap();
        assert_eq!(
            Address::decode_from_holding_registers(&[a.encode_for_write_register()]),
            Ok(a)
        );
    }
}

#[test]
fn address_try_from_every_value() {
    for v in 0..=255u8 {
        let r = Address::try_from(v);
        if (1..=247).contains(&v) {
            assert_eq!(*r.unwrap(), v);
            assert_eq!(r.unwrap().value(), v);
        } else {
            assert_eq!(r, Err(ErrorAddressOutOfRange(v)));
        }
    }
}

#[test]
fn address_broadcast_is_ff_and_not_constructible() {
    assert_eq!(Address::broadcast().value(), 0xFF);
    assert_eq!(*Address::broadcast(), Address::BROADCAST_VALUE);
    assert!(Address::try_from(Address::BROADCAST_VALUE).is_err());
    assert_eq!(Address::broadcast().encode_for_write_register(), 0x00FF);
}

#[test]
fn address_register_constants() {
    assert_eq!(Address::ADDRESS, 0x00FF);
    assert_eq!(Address::QUANTITY, 1);
}

// --- Port ---

#[test]
fn port_try_from_validation() {
    assert!(matches!(Port::try_from(Port::MIN), Ok(p) if *p == 0));
    assert!(matches!(Port::try_from(Port::MAX), Ok(p) if *p == 7));
    assert!(matches!(
        Port::try_from(Port::MAX + 1),
        Err(ErrorPortOutOfRange(8))
    ));
    assert!(matches!(Port::try_from(3), Ok(p) if *p == 3));
}

#[test]
fn port_try_from_every_value() {
    for v in 0..=255u8 {
        let r = Port::try_from(v);
        if v <= 7 {
            let p = r.unwrap();
            assert_eq!(p.index(), v);
            assert_eq!(p.address_for_write_register(), v as u16 + 1);
        } else {
            assert_eq!(r, Err(ErrorPortOutOfRange(v)));
        }
    }
}

#[test]
fn port_address_for_write_register_is_one_based() {
    assert_eq!(Port::try_from(0).unwrap().address_for_write_register(), 1);
    assert_eq!(Port::try_from(1).unwrap().address_for_write_register(), 2);
    assert_eq!(Port::try_from(7).unwrap().address_for_write_register(), 8);
}

#[test]
fn port_encode_delay() {
    assert_eq!(Port::encode_delay_for_write_register(0), 0x0600);
    assert_eq!(Port::encode_delay_for_write_register(10), 0x060A);
    assert_eq!(Port::encode_delay_for_write_register(255), 0x06FF);
}

#[test]
fn port_data_constants() {
    assert_eq!(Port::REG_DATA_SET_PORT_OPEN, 0x0100);
    assert_eq!(Port::REG_DATA_SET_PORT_CLOSE, 0x0200);
    assert_eq!(Port::REG_DATA_SET_PORT_TOGGLE, 0x0300);
    assert_eq!(Port::REG_DATA_SET_PORT_LATCH, 0x0400);
    assert_eq!(Port::REG_DATA_SET_PORT_MOMENTARY, 0x0500);
    assert_eq!(Port::REG_DATA_SET_PORT_DELAY, 0x0600);
    assert_eq!(PortsAll::ADDRESS, 0x0000);
    assert_eq!(PortsAll::REG_DATA_SET_ALL_OPEN, 0x0700);
    assert_eq!(PortsAll::REG_DATA_SET_ALL_CLOSE, 0x0800);
}

// --- PortState / PortStates ---

#[test]
fn port_state_decode() {
    assert_eq!(
        PortState::decode_from_holding_registers(0x0000),
        PortState::Close
    );
    assert_eq!(
        PortState::decode_from_holding_registers(0x0001),
        PortState::Open
    );
    assert_eq!(
        PortState::decode_from_holding_registers(0xFFFF),
        PortState::Open
    );
}

#[test]
fn port_state_decode_non_zero_without_bit_zero_is_open() {
    assert_eq!(
        PortState::decode_from_holding_registers(0x0002),
        PortState::Open
    );
    assert_eq!(
        PortState::decode_from_holding_registers(0x8000),
        PortState::Open
    );
}

#[test]
fn port_states_decode() {
    let words_all_closed = [0x0000; NUMBER_OF_PORTS];
    let words_mixed = [
        0x0001, 0x0000, 0xFFFF, 0x0000, 0x0001, 0x0000, 0x0001, 0x0000,
    ];
    let words_short = [0x0001, 0x0000];
    let words_long = [
        0x0001, 0x0000, 0x0001, 0x0000, 0x0001, 0x0000, 0x0001, 0x0000, 0x9999,
    ];

    let expected_all_closed = PortStates::from_array([PortState::Close; NUMBER_OF_PORTS]);
    let expected_mixed = PortStates::from_array([
        PortState::Open,
        PortState::Close,
        PortState::Open,
        PortState::Close,
        PortState::Open,
        PortState::Close,
        PortState::Open,
        PortState::Close,
    ]);

    let mut expected_short_arr = [PortState::Close; NUMBER_OF_PORTS];
    expected_short_arr[0] = PortState::Open;
    expected_short_arr[1] = PortState::Close;
    let expected_short = PortStates::from_array(expected_short_arr);

    assert_eq!(
        PortStates::decode_from_holding_registers(&words_all_closed),
        expected_all_closed
    );
    assert_eq!(
        PortStates::decode_from_holding_registers(&words_mixed),
        expected_mixed
    );
    assert_eq!(
        PortStates::decode_from_holding_registers(&words_short),
        expected_short
    );
    assert_eq!(
        PortStates::decode_from_holding_registers(&words_long),
        expected_mixed
    );
}

#[test]
fn port_states_decode_empty_is_all_closed() {
    let states = PortStates::decode_from_holding_registers(&[]);
    assert_eq!(states.as_array(), &[PortState::Close; NUMBER_OF_PORTS]);
}

#[test]
fn port_states_extra_words_change_nothing() {
    let base = [0, 1, 0, 1, 0, 1, 0, 1];
    let longer = [0, 1, 0, 1, 0, 1, 0, 1, 1, 1, 1];
    assert_eq!(
        PortStates::decode_from_holding_registers(&base),
        PortStates::decode_from_holding_registers(&longer)
    );
}

#[test]
fn port_states_iter_in_port_order() {
    let states = PortStates::decode_from_holding_registers(&[0, 0, 0, 5]);
    let collected: Vec<PortState> = states.iter().copied().collect();
    assert_eq!(collected.len(), NUMBER_OF_PORTS);
    assert_eq!(collected[3], PortState::Open);
    assert_eq!(
        collected.iter().filter(|s| **s == PortState::Open).count(),
        1
    );
    assert_eq!(PortStates::ADDRESS, 0x0001);
    assert_eq!(PortStates::QUANTITY, 8);
}

// --- Text ---

#[test]
fn display_formats() {
    assert_eq!(PortState::Open.to_string(), "open");
    assert_eq!(PortState::Close.to_string(), "close");
    assert_eq!(Address::try_from(1).unwrap().to_string(), "0x01");
    assert_eq!(Address::try_from(247).unwrap().to_string(), "0xf7");
    assert_eq!(Address::broadcast().to_string(), "0xff");
    let states = PortStates::from_array([
        PortState::Open,
        PortState::Close,
        PortState::Open,
        PortState::Close,
        PortState::Close,
        PortState::Close,
        PortState::Close,
        PortState::Close,
    ]);
    assert_eq!(
        states.to_string(),
        "open, close, open, close, close, close, close, close"
    );
}

#[test]
fn port_and_address_text() {
    assert_eq!(Port::try_from(0).unwrap().to_string(), "0");
    assert_eq!(Port::try_from(7).unwrap().to_string(), "7");
    assert_eq!(Address::try_from(0x1A).unwrap().to_string(), "0x1a");
    assert_eq!(Address::try_from(16).unwrap().to_string(), "0x10");
    assert_eq!(PortState::Open.as_str(), "open");
}
