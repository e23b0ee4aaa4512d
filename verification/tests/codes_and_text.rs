use flic::enums::{
    BdAddrType, BluetoothControllerState, ClickType, ConnectionStatus,
    CreateConnectionChannelError, DisconnectReason, LatencyMode, RemovedReason, ScanWizardResult,
    WireEnum,
};
use flic::error::UnmarshalError;
use flic::events::Opcode;
use flic::text::decimal;
use flic::wire::{
    check_sz, check_sz_at_least, load_bd_addr, load_bool, load_enum, load_field, load_i16,
    load_i64, load_i8, load_string, load_u16, load_u32, load_uuid, store_bytes, store_u16,
    store_u32,
};
use flic::{BdAddr, FlicError};

fn round_trips<E: WireEnum + PartialEq + std::fmt::Debug>(members: u8) {
    for v in 0..=255u8 {
        match E::from_u8(v) {
            Some(e) => {
                assert!(v < members);
                assert_eq!(e.to_u8(), v);
            }
            None => assert!(v >= members),
        }
    }
}

#[test]
fn every_code_round_trips_and_nothing_else_decodes() {
    round_trips::<CreateConnectionChannelError>(2);
    round_trips::<ConnectionStatus>(3);
    round_trips::<DisconnectReason>(4);
    round_trips::<RemovedReason>(12);
    round_trips::<ClickType>(6);
    round_trips::<BdAddrType>(2);
    round_trips::<LatencyMode>(3);
    round_trips::<BluetoothControllerState>(3);
    round_trips::<ScanWizardResult>(9);
    round_trips::<Opcode>(21);
    round_trips::<flic::cmd::LatencyMode>(3);
}

#[test]
fn codes_have_their_protocol_values() {
    assert_eq!(Opcode::from_u8(0), Some(Opcode::AdvertisementPacket));
    assert_eq!(Opcode::from_u8(9), Some(Opcode::GetInfoResponse));
    assert_eq!(Opcode::from_u8(20), Some(Opcode::BatteryStatus));
    assert_eq!(Opcode::from_u8(21), None);
    assert_eq!(ClickType::from_u8(5), Some(ClickType::ButtonHold));
    assert_eq!(RemovedReason::from_u8(11), Some(RemovedReason::DeletedFromButton));
    assert_eq!(LatencyMode::High.to_u8(), 2);
    assert_eq!(ClickType::ButtonDoubleClick.name(), "ButtonDoubleClick");
}

#[test]
fn little_endian_readers() {
    let data = [0xff, 0x34, 0x12, 0x78, 0x56, 0x34, 0x12, 0x01, 0x80];
    assert_eq!(load_u16(&data, 1), 0x1234);
    assert_eq!(load_u32(&data, 3), 0x12345678);
    assert_eq!(load_u32(&[0xff, 0xff, 0xff, 0xff], 0), u32::MAX);
    assert_eq!(load_i16(&data, 7), i16::MIN + 1);
    assert_eq!(load_i16(&[0xff, 0x7f], 0), i16::MAX);
    assert_eq!(load_i8(&data, 0), -1);
    assert_eq!(load_i8(&data, 7), 1);
    assert_eq!(load_i64(&[0xff, 0xff, 0xff, 0xff, 0xff, 0xff, 0xff, 0x7f], 0), i64::MAX);
    assert!(load_bool(&data, 7));
    assert!(!load_bool(&data, 0));
    assert_eq!(load_bd_addr(&data, 1), BdAddr([0x34, 0x12, 0x78, 0x56, 0x34, 0x12]));
    let bytes: Vec<u8> = (0..20).collect();
    assert_eq!(load_uuid(&bytes, 2), [2, 3, 4, 5, 6, 7, 8, 9, 10, 11, 12, 13, 14, 15, 16, 17]);
}

#[test]
fn little_endian_writers() {
    let mut v = vec![9u8];
    store_u16(&mut v, 0x1234);
    store_u32(&mut v, 0x89abcdef);
    store_bytes(&mut v, &[1, 2, 3]);
    assert_eq!(v, vec![9, 0x34, 0x12, 0xef, 0xcd, 0xab, 0x89, 1, 2, 3]);
    assert_eq!(load_u16(&v, 1), 0x1234);
    assert_eq!(load_u32(&v, 3), 0x89abcdef);
}

#[test]
fn size_checks() {
    assert!(check_sz(&[1, 2, 3], 3).is_ok());
    assert!(matches!(
        check_sz(&[1, 2, 3], 4),
        Err(FlicError::Unmarshal(UnmarshalError::BadLength(3, 4)))
    ));
    assert!(matches!(
        check_sz(&[1, 2, 3], 2),
        Err(FlicError::Unmarshal(UnmarshalError::BadLength(3, 2)))
    ));
    assert!(check_sz_at_least(&[1, 2, 3], 3).is_ok());
    assert!(check_sz_at_least(&[1, 2, 3], 0).is_ok());
    assert!(matches!(
        check_sz_at_least(&[1, 2, 3], 4),
        Err(FlicError::Unmarshal(UnmarshalError::BadLengthAtLeast(3, 4)))
    ));
}

#[test]
fn strings_and_fields() {
    let data = b"xxhello\xff";
    assert_eq!(load_string(data, 2, 5).unwrap(), "hello");
    assert_eq!(load_string(data, 2, 0).unwrap(), "");
    assert!(matches!(
        load_string(data, 2, 6),
        Err(FlicError::Unmarshal(UnmarshalError::BadString(_)))
    ));
    let mut field = vec![0u8, 3, b'a', b'b', b'c'];
    field.extend_from_slice(&[0xff; 13]);
    assert_eq!(load_field(&field, 1).unwrap(), "abc");
    field[1] = 17;
    assert!(matches!(
        load_field(&field, 1),
        Err(FlicError::Unmarshal(UnmarshalError::BadLengthAtLeast(16, 17)))
    ));
}

#[test]
fn enum_reader_names_the_set() {
    assert_eq!(
        load_enum::<ConnectionStatus>(&[0, 2], 1, "ConnectionStatus").unwrap(),
        ConnectionStatus::Ready
    );
    match load_enum::<ConnectionStatus>(&[0, 3], 1, "ConnectionStatus") {
        Err(FlicError::Unmarshal(UnmarshalError::BadEnum(3, name))) => {
            assert_eq!(name, "ConnectionStatus")
        }
        other => panic!("unexpected {:?}", other),
    }
}

#[test]
fn decimal_text() {
    assert_eq!(decimal(0), "0");
    assert_eq!(decimal(9), "9");
    assert_eq!(decimal(10), "10");
    assert_eq!(decimal(65535), "65535");
    assert_eq!(decimal(usize::MAX), usize::MAX.to_string());
}

#[test]
fn errors_in_words() {
    assert_eq!(UnmarshalError::BadLength(5, 6).to_string(), "body length 5, expected 6");
    assert_eq!(
        UnmarshalError::BadLengthAtLeast(2, 15).to_string(),
        "body length 2, expected at least 15"
    );
    assert_eq!(
        UnmarshalError::BadEnum(7, String::from("ClickType")).to_string(),
        "enum value 7 is invalid for enum ClickType"
    );
    assert_eq!(UnmarshalError::BadOpcode(200).to_string(), "unknown opcode 200");
    assert_eq!(
        UnmarshalError::BadClickType(ClickType::ButtonHold, String::from("ButtonUpOrDown"))
            .to_string(),
        "click type ButtonHold not valid for ButtonUpOrDown"
    );
    let bad = String::from_utf8(vec![0xff]).unwrap_err();
    let text = UnmarshalError::BadString(bad).to_string();
    assert!(text.starts_with("string was not valid UTF-8: "));
    assert!(text.len() > "string was not valid UTF-8: ".len());
    assert_eq!(
        FlicError::Unmarshal(UnmarshalError::BadOpcode(33)).to_string(),
        "failed during unmarshaling: unknown opcode 33"
    );
    let io = std::io::Error::new(std::io::ErrorKind::Other, "boom");
    assert_eq!(
        FlicError::FlicD(io).to_string(),
        "failed communicating with flicd: boom"
    );
    assert_eq!(FlicError::Generic(String::from("plain")).to_string(), "plain");
}

#[test]
fn errors_convert() {
    let e: FlicError = UnmarshalError::BadOpcode(1).into();
    assert!(matches!(e, FlicError::Unmarshal(UnmarshalError::BadOpcode(1))));
    let e: FlicError = String::from("x").into();
    assert!(matches!(e, FlicError::Generic(_)));
    let e: FlicError = std::io::Error::new(std::io::ErrorKind::Other, "y").into();
    assert!(matches!(e, FlicError::FlicD(_)));
}

#[test]
fn only_a_failed_stream_is_fatal() {
    let io = std::io::Error::new(std::io::ErrorKind::BrokenPipe, "gone");
    assert!(FlicError::FlicD(io).is_fatal());
    assert!(!FlicError::Unmarshal(UnmarshalError::BadOpcode(99)).is_fatal());
    assert!(!FlicError::Generic(String::from("no connection")).is_fatal());
}
