use flic::{BdAddr, Uuid};

#[test]
fn bd_addr_debug() {
    let bd_addr = BdAddr([0x0d, 0x0c, 0x0b, 0x0a, 0x09, 0x08]);
    assert_eq!(bd_addr.to_string(), "08:09:0a:0b:0c:0d");
}

#[test]
fn uuid_debug() {
    let uuid = Uuid([
        0x00, 0x01, 0x02, 0x03, 0x04, 0x05, 0x06, 0x07, 0x08, 0x09, 0x0A, 0x0B, 0x0C, 0x0D,
        0x0E, 0x0F,
    ]);
    assert_eq!(uuid.to_string(), "00010203-0405-0607-0809-0a0b0c0d0e0f");
}

#[test]
fn bd_addr_text_uses_two_lower_case_digits_per_octet() {
    let bd_addr = BdAddr([0xff, 0x00, 0xa0, 0x0a, 0x7f, 0x80]);
    assert_eq!(bd_addr.to_string(), "80:7f:0a:a0:00:ff");
}

#[test]
fn bd_addr_to_vec_keeps_wire_order() {
    let bd_addr = BdAddr([1, 2, 3, 4, 5, 6]);
    assert_eq!(bd_addr.to_vec(), vec![1, 2, 3, 4, 5, 6]);
}

#[test]
fn uuid_text_of_high_bytes() {
    let uuid = Uuid([0xff; 16]);
    assert_eq!(uuid.to_string(), "ffffffff-ffff-ffff-ffff-ffffffffffff");
}
