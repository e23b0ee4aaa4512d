use flic::cmd::{
    CancelScanWizardMsg, ChangeModeParametersMsg, CreateBatteryStatusListenerMsg,
    CreateConnectionChannelMsg, CreateScanWizardMsg, CreateScannerMsg, DeleteButtonMsg,
    ForceDisconnectMsg, GetButtonInfoMsg, GetInfoMsg, LatencyMode, Message, PingMsg,
    RemoveBatteryStatusListenerMsg, RemoveConnectionChannelMsg, RemoveScannerMsg,
};

#[test]
fn get_info_msg_marshals_to_empty_vec() {
    let msg = GetInfoMsg {};
    assert_eq!(msg.marshal(), Vec::<u8>::new());
}

#[test]
fn create_scanner_msg_marshal() {
    let msg = CreateScannerMsg {
        scan_id: 0x12345678,
    };
    assert_eq!(msg.marshal(), vec![0x78, 0x56, 0x34, 0x12]);
}

#[test]
fn remove_scanner_msg_marshal() {
    let msg = RemoveScannerMsg {
        scan_id: 0x12345678,
    };
    assert_eq!(msg.marshal(), vec![0x78, 0x56, 0x34, 0x12]);
}

#[test]
fn create_connection_channel_msg_marshal() {
    let msg = CreateConnectionChannelMsg {
        conn_id: 0x12345678,
        bd_addr: [0x01, 0x02, 0x03, 0x04, 0x05, 0x06],
        latency_mode: LatencyMode::Normal,
        auto_disconnect_time: 0x4455,
    };
    assert_eq!(
        msg.marshal(),
        vec![
            0x78, 0x56, 0x34, 0x12, // conn_id
            0x01, 0x02, 0x03, 0x04, 0x05, 0x06, // bd_addr
            0x00, // latency_mode
            0x55, 0x44, // auto_disconnect_time
        ]
    );
}

#[test]
fn remove_connection_channel_msg_marshal() {
    let msg = RemoveConnectionChannelMsg {
        conn_id: 0x12345678,
    };
    assert_eq!(msg.marshal(), vec![0x78, 0x56, 0x34, 0x12]);
}

#[test]
fn force_disconnect_msg_marshal() {
    let msg = ForceDisconnectMsg {
        bd_addr: [0x01, 0x02, 0x03, 0x04, 0x05, 0x06],
    };
    assert_eq!(msg.marshal(), vec![0x01, 0x02, 0x03, 0x04, 0x05, 0x06]);
}

#[test]
fn change_mode_parameters_msg_marshal() {
    let msg = ChangeModeParametersMsg {
        conn_id: 0x12345678,
        latency_mode: LatencyMode::Low,
        auto_disconnect_time: 0x4455,
    };
    assert_eq!(
        msg.marshal(),
        vec![
            0x78, 0x56, 0x34, 0x12, // conn_id
            0x01, // latency_mode
            0x55, 0x44, // auto_disconnect_time
        ]
    );
}

#[test]
fn cmd_cmd_ping_marshal() {
    let msg = PingMsg {
        ping_id: 0x12345678,
    };
    assert_eq!(msg.marshal(), vec![0x78, 0x56, 0x34, 0x12]);
}

#[test]
fn get_button_info_msg_marshal() {
    let msg = GetButtonInfoMsg {
        bd_addr: [0x01, 0x02, 0x03, 0x04, 0x05, 0x06],
    };
    assert_eq!(msg.marshal(), vec![0x01, 0x02, 0x03, 0x04, 0x05, 0x06]);
}

#[test]
fn create_scan_wizard_msg_marshal() {
    let msg = CreateScanWizardMsg {
        scan_wizard_id: 0x12345678,
    };
    assert_eq!(msg.marshal(), vec![0x78, 0x56, 0x34, 0x12]);
}

#[test]
fn cancel_scan_wizard_msg_marshal() {
    let msg = CancelScanWizardMsg {
        scan_wizard_id: 0x12345678,
    };
    assert_eq!(msg.marshal(), vec![0x78, 0x56, 0x34, 0x12]);
}

#[test]
fn delete_button_msg_marshal() {
    let msg = DeleteButtonMsg {
        bd_addr: [0x01, 0x02, 0x03, 0x04, 0x05, 0x06],
    };
    assert_eq!(msg.marshal(), vec![0x01, 0x02, 0x03, 0x04, 0x05, 0x06]);
}

#[test]
fn create_battery_status_listener_msg_marshal() {
    let msg = CreateBatteryStatusListenerMsg {
        listener_id: 0x12345678,
        bd_addr: [0x01, 0x02, 0x03, 0x04, 0x05, 0x06],
    };
    assert_eq!(
        msg.marshal(),
        vec![
            0x78, 0x56, 0x34, 0x12, // listener_id
            0x01, 0x02, 0x03, 0x04, 0x05, 0x06, // bd_addr
        ]
    );
}

#[test]
fn remove_battery_status_listener_msg_marshal() {
    let msg = RemoveBatteryStatusListenerMsg {
        listener_id: 0x12345678,
    };
    assert_eq!(msg.marshal(), vec![0x78, 0x56, 0x34, 0x12]);
}
