use flic::enums::{
    BdAddrType, BluetoothControllerState, ClickType, ConnectionStatus,
    CreateConnectionChannelError, DisconnectReason, RemovedReason, ScanWizardResult,
};
use flic::error::UnmarshalError;
use flic::events::{
    unmarshal, AdvertisementPacket, BatteryStatus, BluetoothControllerStateChange, ButtonClickOrHold,
    ButtonDeleted, ButtonSingleOrDoubleClick, ButtonSingleOrDoubleClickOrHold, ButtonUpOrDown,
    ConnectionChannelRemoved, ConnectionStatusChanged, CreateConnectionChannelResponse, Event,
    GetButtonInfoResponse, GetInfoResponse, GotSpaceForNewConnection, NewVerifiedButton,
    NoSpaceForNewConnection, Opcode, PingResponse, ScanWizardButtonConnected,
    ScanWizardCompleted, ScanWizardFoundPrivateButton, ScanWizardFoundPublicButton,
};
use flic::{BdAddr, FlicError};

fn decoded(data: &[u8]) -> (Event, Opcode) {
    unmarshal(data).expect("failed to unmarshal valid data")
}

fn refused(data: &[u8]) -> UnmarshalError {
    match unmarshal(data) {
        Err(FlicError::Unmarshal(e)) => e,
        other => panic!("expected a decode error, got {:?}", other),
    }
}

const ADVERTISEMENT: [u8; 33] = [
    0x00, // opcode
    0x78, 0x56, 0x34, 0x12, // scan_id
    0x01, 0x02, 0x03, 0x04, 0x05, 0x06, // bd_addr
    0x08, // name_length
    0x54, 0x68, 0x65, 0x20, 0x4E, 0x61, 0x6D, 0x65, 0x00, 0x00, 0x00, 0x00, 0x00, 0x00, 0x00,
    0x00, // name
    0x78, // rssi
    0x01, // is_private,
    0x00, // already_verified
    0x01, // already_connected_to_this_device,
    0x00, // already_connected_to_other_device,
];

#[test]
fn unmarshal_advertisement_packet() {
    let (got, _) = decoded(&ADVERTISEMENT);
    let want = Event::AdvertisementPacket(AdvertisementPacket {
        scan_id: 0x12345678,
        bd_addr: BdAddr([0x01, 0x02, 0x03, 0x04, 0x05, 0x06]),
        name: String::from("The Name"),
        rssi: 120,
        is_private: true,
        already_verified: false,
        already_connected_to_this_device: true,
        already_connected_to_other_device: false,
    });
    assert_eq!(want, got);
}

#[test]
fn unmarshal_create_connection_channel_response() {
    let data = vec![
        0x01, // opcode
        0x78, 0x56, 0x34, 0x12, // conn_id
        0x01, // error
        0x02, // connection_status
    ];
    let (got, _) = decoded(&data);
    let want = Event::CreateConnectionChannelResponse(CreateConnectionChannelResponse {
        conn_id: 0x12345678,
        error: CreateConnectionChannelError::MaxPendingConnectionsReached,
        connection_status: ConnectionStatus::Ready,
    });
    assert_eq!(want, got);
}

#[test]
fn unmarshal_connection_status_changed() {
    let data = vec![
        0x02, // opcode
        0x78, 0x56, 0x34, 0x12, // conn_id
        0x01, // connection_status
        0x02, // disconnect_reason
    ];
    let (got, _) = decoded(&data);
    let want = Event::ConnectionStatusChanged(ConnectionStatusChanged {
        conn_id: 0x12345678,
        connection_status: ConnectionStatus::Connected,
        disconnect_reason: DisconnectReason::TimedOut,
    });
    assert_eq!(want, got);
}

#[test]
fn unmarshal_connection_channel_removed() {
    let data = vec![
        0x03, // opcode
        0x78, 0x56, 0x34, 0x12, // conn_id
        0x03, // removed_reason
    ];
    let (got, _) = decoded(&data);
    let want = Event::ConnectionChannelRemoved(ConnectionChannelRemoved {
        conn_id: 0x12345678,
        removed_reason: RemovedReason::ButtonIsPrivate,
    });
    assert_eq!(want, got);
}

#[test]
fn unmarshal_button_up_or_down() {
    let data = vec![
        0x04, // opcode
        0x78, 0x56, 0x34, 0x12, // conn_id
        0x01, // click_type
        0x01, // was_queued
        0x89, 0x67, 0x45, 0x23, // time_diff
    ];
    let (got, _) = decoded(&data);
    let want = Event::ButtonUpOrDown(ButtonUpOrDown {
        conn_id: 0x12345678,
        click_type: ClickType::ButtonUp,
        was_queued: true,
        time_diff: 0x23456789,
    });
    assert_eq!(want, got);
}

#[test]
fn unmarshal_button_click_or_hold() {
    let data = vec![
        0x05, // opcode
        0x78, 0x56, 0x34, 0x12, // conn_id
        0x02, // click_type
        0x01, // was_queued
        0x89, 0x67, 0x45, 0x23, // time_diff
    ];
    let (got, _) = decoded(&data);
    let want = Event::ButtonClickOrHold(ButtonClickOrHold {
        conn_id: 0x12345678,
        click_type: ClickType::ButtonClick,
        was_queued: true,
        time_diff: 0x23456789,
    });
    assert_eq!(want, got);
}

#[test]
fn unmarshal_button_single_or_double_click() {
    let data = vec![
        0x06, // opcode
        0x78, 0x56, 0x34, 0x12, // conn_id
        0x04, // click_type
        0x01, // was_queued
        0x89, 0x67, 0x45, 0x23, // time_diff
    ];
    let (got, _) = decoded(&data);
    let want = Event::ButtonSingleOrDoubleClick(ButtonSingleOrDoubleClick {
        conn_id: 0x12345678,
        click_type: ClickType::ButtonDoubleClick,
        was_queued: true,
        time_diff: 0x23456789,
    });
    assert_eq!(want, got);
}

#[test]
fn unmarshal_button_single_or_double_click_or_hold() {
    let data = vec![
        0x07, // opcode
        0x78, 0x56, 0x34, 0x12, // conn_id
        0x05, // click_type
        0x01, // was_queued
        0x89, 0x67, 0x45, 0x23, // time_diff
    ];
    let (got, _) = decoded(&data);
    let want = Event::ButtonSingleOrDoubleClickOrHold(ButtonSingleOrDoubleClickOrHold {
        conn_id: 0x12345678,
        click_type: ClickType::ButtonHold,
        was_queued: true,
        time_diff: 0x23456789,
    });
    assert_eq!(want, got);
}

#[test]
fn unmarshal_new_verified_button() {
    let data = vec![
        0x08, // opcode
        0x01, 0x02, 0x03, 0x04, 0x05, 0x06, // bd_addr
    ];
    let (got, _) = decoded(&data);
    let want = Event::NewVerifiedButton(NewVerifiedButton {
        bd_addr: BdAddr([0x01, 0x02, 0x03, 0x04, 0x05, 0x06]),
    });
    assert_eq!(want, got);
}

fn get_info_prefix(count: u16) -> Vec<u8> {
    let mut data = vec![
        0x09, // opcode
        0x02, // bluetooth_controller_state
        0x0a, 0x0b, 0x0c, 0x0d, 0x0e, 0x0f, // my_bd_addr
        0x01, // my_bd_addr_type
        0x20, // max_pending_connections
        0xff, 0xff, // max_concurrently_connected_buttons
        0x03, // current_pending_connections
        0x01, // currently_no_space_for_new_connection
    ];
    data.push((count % 256) as u8);
    data.push((count / 256) as u8);
    data
}

#[test]
fn unmarshal_get_info_response_with_two_addresses() {
    let mut data = get_info_prefix(2);
    data.extend_from_slice(&[0x11, 0x12, 0x13, 0x14, 0x15, 0x16]);
    data.extend_from_slice(&[0x21, 0x22, 0x23, 0x24, 0x25, 0x26]);
    assert_eq!(data.len(), 1 + 15 + 2 * 6);
    let (got, op) = decoded(&data);
    let want = Event::GetInfoResponse(GetInfoResponse {
        bluetooth_controller_state: BluetoothControllerState::Attached,
        my_bd_addr: BdAddr([0x0a, 0x0b, 0x0c, 0x0d, 0x0e, 0x0f]),
        my_bd_addr_type: BdAddrType::RandomBdAddrType,
        max_pending_connections: 0x20,
        max_concurrently_connected_buttons: -1,
        current_pending_connections: 3,
        currently_no_space_for_new_connection: true,
        nb_verified_buttons: 2,
        bd_addr_of_verified_buttons: vec![
            BdAddr([0x11, 0x12, 0x13, 0x14, 0x15, 0x16]),
            BdAddr([0x21, 0x22, 0x23, 0x24, 0x25, 0x26]),
        ],
    });
    assert_eq!(want, got);
    assert_eq!(op, Opcode::GetInfoResponse);
}

#[test]
fn unmarshal_get_info_response_without_addresses() {
    let data = get_info_prefix(0);
    let (got, _) = decoded(&data);
    match got {
        Event::GetInfoResponse(info) => {
            assert_eq!(info.nb_verified_buttons, 0);
            assert!(info.bd_addr_of_verified_buttons.is_empty());
        }
        other => panic!("unexpected event {:?}", other),
    }
}

#[test]
fn get_info_response_one_address_short_is_bad_length() {
    let mut data = get_info_prefix(2);
    data.extend_from_slice(&[0x11, 0x12, 0x13, 0x14, 0x15, 0x16]);
    assert!(matches!(refused(&data), UnmarshalError::BadLength(21, 27)));
}

#[test]
fn get_info_response_shorter_than_prefix_is_bad_length_at_least() {
    let data = vec![0x09, 0x02, 0x0a];
    assert!(matches!(refused(&data), UnmarshalError::BadLengthAtLeast(2, 15)));
}

#[test]
fn get_info_response_bad_codes() {
    let mut data = get_info_prefix(0);
    data[1] = 3;
    match refused(&data) {
        UnmarshalError::BadEnum(3, name) => assert_eq!(name, "BluetoothControllerState"),
        other => panic!("unexpected error {:?}", other),
    }
    let mut data = get_info_prefix(0);
    data[8] = 2;
    match refused(&data) {
        UnmarshalError::BadEnum(2, name) => assert_eq!(name, "BdAddrType"),
        other => panic!("unexpected error {:?}", other),
    }
}

#[test]
fn unmarshal_no_space_and_got_space() {
    let (got, _) = decoded(&[0x0a, 0x07]);
    assert_eq!(
        got,
        Event::NoSpaceForNewConnection(NoSpaceForNewConnection {
            max_concurrently_connected_buttons: 7
        })
    );
    let (got, _) = decoded(&[0x0b, 0x07]);
    assert_eq!(
        got,
        Event::GotSpaceForNewConnection(GotSpaceForNewConnection {
            max_concurrently_connected_buttons: 7
        })
    );
}

#[test]
fn unmarshal_bluetooth_controller_state_change() {
    let (got, _) = decoded(&[0x0c, 0x01]);
    assert_eq!(
        got,
        Event::BluetoothControllerStateChange(BluetoothControllerStateChange {
            state: BluetoothControllerState::Resetting
        })
    );
    match refused(&[0x0c, 0x03]) {
        UnmarshalError::BadEnum(3, name) => assert_eq!(name, "BluetoothControllerState"),
        other => panic!("unexpected error {:?}", other),
    }
}

#[test]
fn unmarshal_ping_response() {
    let (got, op) = decoded(&[0x0d, 0x78, 0x56, 0x34, 0x12]);
    assert_eq!(got, Event::PingResponse(PingResponse { ping_id: 0x12345678 }));
    assert_eq!(op, Opcode::PingResponse);
}

fn button_info_frame(color: &[u8], color_len: u8, serial: &[u8], serial_len: u8) -> Vec<u8> {
    let mut data = vec![0x0e];
    data.extend_from_slice(&[0x01, 0x02, 0x03, 0x04, 0x05, 0x06]);
    data.extend_from_slice(&[
        0x00, 0x01, 0x02, 0x03, 0x04, 0x05, 0x06, 0x07, 0x08, 0x09, 0x0a, 0x0b, 0x0c, 0x0d, 0x0e,
        0x0f,
    ]);
    data.push(color_len);
    let mut buf = [0u8; 16];
    buf[..color.len()].copy_from_slice(color);
    data.extend_from_slice(&buf);
    data.push(serial_len);
    let mut buf = [0u8; 16];
    buf[..serial.len()].copy_from_slice(serial);
    data.extend_from_slice(&buf);
    data
}

#[test]
fn unmarshal_get_button_info_response() {
    let data = button_info_frame(b"white", 5, b"AB12-C34567", 11);
    assert_eq!(data.len(), 57);
    let (got, _) = decoded(&data);
    let want = Event::GetButtonInfoResponse(GetButtonInfoResponse {
        bd_addr: BdAddr([0x01, 0x02, 0x03, 0x04, 0x05, 0x06]),
        uuid: [
            0x00, 0x01, 0x02, 0x03, 0x04, 0x05, 0x06, 0x07, 0x08, 0x09, 0x0a, 0x0b, 0x0c, 0x0d,
            0x0e, 0x0f,
        ],
        color: String::from("white"),
        serial_number: String::from("AB12-C34567"),
    });
    assert_eq!(want, got);
}

#[test]
fn string_field_ignores_padding() {
    // Bytes of the buffer beyond the declared length are not looked at, even
    // where they are not UTF-8.
    let data = button_info_frame(&[b'r', b'e', b'd', 0xff, 0xfe], 3, &[0xff; 16], 0);
    match decoded(&data).0 {
        Event::GetButtonInfoResponse(info) => {
            assert_eq!(info.color, "red");
            assert_eq!(info.serial_number, "");
        }
        other => panic!("unexpected event {:?}", other),
    }
}

#[test]
fn string_field_may_fill_its_buffer() {
    let data = button_info_frame(b"0123456789abcdef", 16, b"", 0);
    match decoded(&data).0 {
        Event::GetButtonInfoResponse(info) => assert_eq!(info.color, "0123456789abcdef"),
        other => panic!("unexpected event {:?}", other),
    }
}

#[test]
fn string_field_longer_than_its_buffer_is_refused() {
    let data = button_info_frame(b"white", 17, b"", 0);
    assert!(matches!(refused(&data), UnmarshalError::BadLengthAtLeast(16, 17)));
    let data = button_info_frame(b"white", 5, b"", 255);
    assert!(matches!(refused(&data), UnmarshalError::BadLengthAtLeast(16, 255)));
    let mut data = ADVERTISEMENT.to_vec();
    data[11] = 21;
    assert!(matches!(refused(&data), UnmarshalError::BadLengthAtLeast(16, 21)));
}

#[test]
fn string_field_that_is_not_utf8_is_bad_string() {
    let data = button_info_frame(&[0xc3, 0x28], 2, b"", 0);
    assert!(matches!(refused(&data), UnmarshalError::BadString(_)));
    let mut data = ADVERTISEMENT.to_vec();
    data[12] = 0xff;
    assert!(matches!(refused(&data), UnmarshalError::BadString(_)));
}

#[test]
fn string_field_decodes_multibyte_text() {
    let mut data = vec![0x10, 0x01, 0x00, 0x00, 0x00, 1, 2, 3, 4, 5, 6, 5];
    let mut buf = [0u8; 16];
    buf[..5].copy_from_slice("Knöf".as_bytes());
    data.extend_from_slice(&buf);
    let (got, _) = decoded(&data);
    assert_eq!(
        got,
        Event::ScanWizardFoundPublicButton(ScanWizardFoundPublicButton {
            scan_wizard_id: 1,
            bd_addr: BdAddr([1, 2, 3, 4, 5, 6]),
            name: String::from("Knöf"),
        })
    );
}

#[test]
fn unmarshal_scan_wizard_events() {
    let (got, _) = decoded(&[0x0f, 0x78, 0x56, 0x34, 0x12]);
    assert_eq!(
        got,
        Event::ScanWizardFoundPrivateButton(ScanWizardFoundPrivateButton {
            scan_wizard_id: 0x12345678
        })
    );
    let (got, _) = decoded(&[0x11, 0x78, 0x56, 0x34, 0x12]);
    assert_eq!(
        got,
        Event::ScanWizardButtonConnected(ScanWizardButtonConnected {
            scan_wizard_id: 0x12345678
        })
    );
    let (got, _) = decoded(&[0x12, 0x78, 0x56, 0x34, 0x12, 0x08]);
    assert_eq!(
        got,
        Event::ScanWizardCompleted(ScanWizardCompleted {
            scan_wizard_id: 0x12345678,
            result: ScanWizardResult::WizardButtonAlreadyConnectedToOtherDevice,
        })
    );
    match refused(&[0x12, 0x78, 0x56, 0x34, 0x12, 0x09]) {
        UnmarshalError::BadEnum(9, name) => assert_eq!(name, "ScanWizardResult"),
        other => panic!("unexpected error {:?}", other),
    }
}

#[test]
fn unmarshal_button_deleted() {
    let (got, _) = decoded(&[0x13, 1, 2, 3, 4, 5, 6, 1]);
    assert_eq!(
        got,
        Event::ButtonDeleted(ButtonDeleted {
            bd_addr: BdAddr([1, 2, 3, 4, 5, 6]),
            deleted_by_this_client: true,
        })
    );
    // Only the byte 1 is true.
    let (got, _) = decoded(&[0x13, 1, 2, 3, 4, 5, 6, 2]);
    assert_eq!(
        got,
        Event::ButtonDeleted(ButtonDeleted {
            bd_addr: BdAddr([1, 2, 3, 4, 5, 6]),
            deleted_by_this_client: false,
        })
    );
}

#[test]
fn unmarshal_battery_status() {
    let data = [0x14, 0x78, 0x56, 0x34, 0x12, 0x64, 0x15, 0xcd, 0x5b, 0x07, 0, 0, 0, 0];
    let (got, _) = decoded(&data);
    assert_eq!(
        got,
        Event::BatteryStatus(BatteryStatus {
            listener_id: 0x12345678,
            battery_percentage: 100,
            timestamp: 123456789,
        })
    );
}

#[test]
fn signed_fields_are_twos_complement() {
    let data = [0x14, 0, 0, 0, 0, 0xff, 0xfe, 0xff, 0xff, 0xff, 0xff, 0xff, 0xff, 0xff];
    match decoded(&data).0 {
        Event::BatteryStatus(b) => {
            assert_eq!(b.battery_percentage, -1);
            assert_eq!(b.timestamp, -2);
        }
        other => panic!("unexpected event {:?}", other),
    }
    let data = [0x14, 0, 0, 0, 0, 0x80, 0, 0, 0, 0, 0, 0, 0, 0x80];
    match decoded(&data).0 {
        Event::BatteryStatus(b) => {
            assert_eq!(b.battery_percentage, i8::MIN);
            assert_eq!(b.timestamp, i64::MIN);
        }
        other => panic!("unexpected event {:?}", other),
    }
    let mut adv = ADVERTISEMENT.to_vec();
    adv[28] = 0x81;
    match decoded(&adv).0 {
        Event::AdvertisementPacket(p) => assert_eq!(p.rssi, -127),
        other => panic!("unexpected event {:?}", other),
    }
}

#[test]
fn click_type_of_another_button_event_is_bad_click_type() {
    let body = [0x78, 0x56, 0x34, 0x12, 0x02, 0x01, 0x89, 0x67, 0x45, 0x23];
    let mut data = vec![0x04];
    data.extend_from_slice(&body);
    match refused(&data) {
        UnmarshalError::BadClickType(ClickType::ButtonClick, name) => {
            assert_eq!(name, "ButtonUpOrDown")
        }
        other => panic!("unexpected error {:?}", other),
    }
    data[0] = 0x05;
    assert!(matches!(decoded(&data).0, Event::ButtonClickOrHold(_)));
    data[0] = 0x06;
    match refused(&data) {
        UnmarshalError::BadClickType(ClickType::ButtonClick, name) => {
            assert_eq!(name, "ButtonSingleOrDoubleClick")
        }
        other => panic!("unexpected error {:?}", other),
    }
    data[0] = 0x07;
    match refused(&data) {
        UnmarshalError::BadClickType(ClickType::ButtonClick, name) => {
            assert_eq!(name, "ButtonSingleOrDoubleClickOrHold")
        }
        other => panic!("unexpected error {:?}", other),
    }
}

#[test]
fn click_type_outside_the_set_is_bad_enum() {
    let data = [0x04, 0x78, 0x56, 0x34, 0x12, 0x06, 0x01, 0x89, 0x67, 0x45, 0x23];
    match refused(&data) {
        UnmarshalError::BadEnum(6, name) => assert_eq!(name, "ClickType"),
        other => panic!("unexpected error {:?}", other),
    }
}

#[test]
fn bad_codes_are_named_as_the_decoder_names_them() {
    match refused(&[0x01, 0, 0, 0, 0, 2, 0]) {
        UnmarshalError::BadEnum(2, name) => assert_eq!(name, "CreateConnectionChannelError"),
        other => panic!("unexpected error {:?}", other),
    }
    match refused(&[0x01, 0, 0, 0, 0, 0, 3]) {
        UnmarshalError::BadEnum(3, name) => assert_eq!(name, "ConnectionStatus"),
        other => panic!("unexpected error {:?}", other),
    }
    match refused(&[0x02, 0, 0, 0, 0, 0, 4]) {
        UnmarshalError::BadEnum(4, name) => assert_eq!(name, "DisconnectionReason"),
        other => panic!("unexpected error {:?}", other),
    }
    match refused(&[0x03, 0, 0, 0, 0, 12]) {
        UnmarshalError::BadEnum(12, name) => assert_eq!(name, "RemoveReason"),
        other => panic!("unexpected error {:?}", other),
    }
}

#[test]
fn one_byte_short_is_bad_length_for_every_fixed_size_event() {
    let sizes: [(u8, usize); 20] = [
        (0, 32),
        (1, 6),
        (2, 6),
        (3, 5),
        (4, 10),
        (5, 10),
        (6, 10),
        (7, 10),
        (8, 6),
        (10, 1),
        (11, 1),
        (12, 1),
        (13, 4),
        (14, 56),
        (15, 4),
        (16, 27),
        (17, 4),
        (18, 5),
        (19, 7),
        (20, 13),
    ];
    for (opcode, size) in sizes {
        let mut data = vec![0u8; size];
        data[0] = opcode;
        match refused(&data) {
            UnmarshalError::BadLength(got, want) => {
                assert_eq!((got, want), (size - 1, size), "opcode {}", opcode)
            }
            other => panic!("opcode {}: unexpected error {:?}", opcode, other),
        }
        let mut data = vec![0u8; size + 2];
        data[0] = opcode;
        assert!(matches!(refused(&data), UnmarshalError::BadLength(_, _)));
    }
}

#[test]
fn unknown_opcode_is_bad_opcode() {
    assert!(matches!(refused(&[21]), UnmarshalError::BadOpcode(21)));
    assert!(matches!(refused(&[0xff, 1, 2, 3]), UnmarshalError::BadOpcode(0xff)));
}

#[test]
fn empty_payload_is_refused() {
    assert!(matches!(refused(&[]), UnmarshalError::BadLengthAtLeast(0, 1)));
}

#[test]
fn unmarshal_returns_the_opcode_of_the_event() {
    let (_, op) = decoded(&ADVERTISEMENT);
    assert_eq!(op, Opcode::AdvertisementPacket);
    let (_, op) = decoded(&[0x08, 1, 2, 3, 4, 5, 6]);
    assert_eq!(op, Opcode::NewVerifiedButton);
}
