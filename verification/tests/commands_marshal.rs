use flic::commands::{
    CancelScanWizard, ChangeModeParameters, Command, CreateBatteryStatusListener,
    CreateConnectionChannel, CreateScanWizard, CreateScanner, DeleteButton, ForceDisconnect,
    GetButtonInfo, GetInfo, Ping, RemoveBatteryStatusListener, RemoveConnectionChannel,
    RemoveScanner,
};
use flic::enums::LatencyMode;

#[test]
fn get_info_marshals_to_empty_vec() {
    let msg = GetInfo {};
    assert_eq!(msg.marshal(), Vec::<u8>::new());
}

#[test]
fn create_scanner_marshal() {
    let msg = CreateScanner {
        scan_id: 0x12345678,
    };
    assert_eq!(msg.marshal(), vec![0x78, 0x56, 0x34, 0x12]);
}

#[test]
fn remove_scanner_marshal() {
    let msg = RemoveScanner {
        scan_id: 0x12345678,
    };
    assert_eq!(msg.marshal(), vec![0x78, 0x56, 0x34, 0x12]);
}

#[test]
fn create_connection_channel_marshal() {
    let msg = CreateConnectionChannel {
        conn_id: 0x12345678,
        bd_addr: [0x01, 0x02, 0x03, 0x04, 0x05, 0x06],
        latency_mode: LatencyMode::Normal,
        auto_disconnect_time: 0x4455,
    };
    assert_eq!(
        msg.marshal(),
        vec![
            0x78, 0x56, 0x34, 0x12, // conn_id
            0x01, 0x02, 0x03, 0x04, 0x05, 0x06, // bd_addr
            0x00, // latency_mode
            0x55, 0x44, // auto_disconnect_time
        ]
    );
}

#[test]
fn remove_connection_channel_marshal() {
    let msg = RemoveConnectionChannel {
        conn_id: 0x12345678,
    };
    assert_eq!(msg.marshal(), vec![0x78, 0x56, 0x34, 0x12]);
}

#[test]
fn force_disconnect_marshal() {
    let msg = ForceDisconnect {
        bd_addr: [0x01, 0x02, 0x03, 0x04, 0x05, 0x06],
    };
    assert_eq!(msg.marshal(), vec![0x01, 0x02, 0x03, 0x04, 0x05, 0x06]);
}

#[test]
fn change_mode_parameters_marshal() {
    let msg = ChangeModeParameters {
        conn_id: 0x12345678,
        latency_mode: LatencyMode::Low,
        auto_disconnect_time: 0x4455,
    };
    assert_eq!(
        msg.marshal(),
        vec![
            0x78, 0x56, 0x34, 0x12, // conn_id
            0x01, // latency_mode
            0x55, 0x44, // auto_disconnect_time
        ]
    );
}

#[test]
fn commands_cmd_ping_marshal() {
    let msg = Ping {
        ping_id: 0x12345678,
    };
    assert_eq!(msg.marshal(), vec![0x78, 0x56, 0x34, 0x12]);
}

#[test]
fn get_button_info_marshal() {
    let msg = GetButtonInfo {
        bd_addr: [0x01, 0x02, 0x03, 0x04, 0x05, 0x06],
    };
    assert_eq!(msg.marshal(), vec![0x01, 0x02, 0x03, 0x04, 0x05, 0x06]);
}

#[test]
fn create_scan_wizard_marshal() {
    let msg = CreateScanWizard {
        scan_wizard_id: 0x12345678,
    };
    assert_eq!(msg.marshal(), vec![0x78, 0x56, 0x34, 0x12]);
}

#[test]
fn cancel_scan_wizard_marshal() {
    let msg = CancelScanWizard {
        scan_wizard_id: 0x12345678,
    };
    assert_eq!(msg.marshal(), vec![0x78, 0x56, 0x34, 0x12]);
}

#[test]
fn delete_button_marshal() {
    let msg = DeleteButton {
        bd_addr: [0x01, 0x02, 0x03, 0x04, 0x05, 0x06],
    };
    assert_eq!(msg.marshal(), vec![0x01, 0x02, 0x03, 0x04, 0x05, 0x06]);
}

#[test]
fn create_battery_status_listener_marshal() {
    let msg = CreateBatteryStatusListener {
        listener_id: 0x12345678,
        bd_addr: [0x01, 0x02, 0x03, 0x04, 0x05, 0x06],
    };
    assert_eq!(
        msg.marshal(),
        vec![
            0x78, 0x56, 0x34, 0x12, // listener_id
            0x01, 0x02, 0x03, 0x04, 0x05, 0x06, // bd_addr
        ]
    );
}

#[test]
fn remove_battery_status_listener_marshal() {
    let msg = RemoveBatteryStatusListener {
        listener_id: 0x12345678,
    };
    assert_eq!(msg.marshal(), vec![0x78, 0x56, 0x34, 0x12]);
}
