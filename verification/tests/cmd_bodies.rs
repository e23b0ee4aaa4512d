use flic::cmd::{describe, CreateBatteryStatusListenerMsg, GetInfoMsg, Message};

#[test]
fn message_body_in_hexadecimal() {
    let msg = CreateBatteryStatusListenerMsg {
        listener_id: 0x12345678,
        bd_addr: [0x01, 0x02, 0x03, 0x04, 0x05, 0xf6],
    };
    assert_eq!(describe(&msg), "785634120102030405f6");
    assert_eq!(describe(&GetInfoMsg {}), "");
    assert_eq!(msg.marshal().len(), 10);
}
