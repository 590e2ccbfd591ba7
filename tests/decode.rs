use hw_telemetry::decode::{
    c_text_equals, c_text_equals_ignoring_case, read_u32_le, read_u64_le, PropertyDictionary,
    PropertyValue,
};

#[test]
fn reads_u32_little_endian() {
    assert_eq!(read_u32_le(&[0x78, 0x56, 0x34, 0x12]), Some(0x1234_5678));
    assert_eq!(read_u32_le(&[7, 0, 0, 0, 0xff]), Some(7));
    assert_eq!(read_u32_le(&[0xff, 0xff, 0xff, 0xff]), Some(u32::MAX));
}

#[test]
fn short_buffer_holds_no_u32() {
    assert_eq!(read_u32_le(&[1, 2, 3]), None);
    assert_eq!(read_u32_le(&[]), None);
}

#[test]
fn reads_u64_little_endian() {
    assert_eq!(
        read_u64_le(&[0x08, 0x07, 0x06, 0x05, 0x04, 0x03, 0x02, 0x01]),
        Some(0x0102_0304_0506_0708)
    );
    assert_eq!(read_u64_le(&[0xff; 8]), Some(u64::MAX));
    assert_eq!(read_u64_le(&[1, 2, 3, 4, 5, 6, 7]), None);
}

#[test]
fn text_ends_at_terminator() {
    assert!(c_text_equals(b"cpu\0", b"cpu"));
    assert!(c_text_equals(b"cpu", b"cpu"));
    assert!(c_text_equals(b"cpu\0junk", b"cpu"));
    assert!(!c_text_equals(b"cpus\0", b"cpu"));
    assert!(!c_text_equals(b"cp\0", b"cpu"));
    assert!(!c_text_equals(b"CPU\0", b"cpu"));
    assert!(c_text_equals(b"\0", b""));
}

#[test]
fn text_compared_ignoring_case() {
    assert!(c_text_equals_ignoring_case(b"PMGR\0", b"pmgr"));
    assert!(c_text_equals_ignoring_case(b"pMgR", b"pmgr"));
    assert!(!c_text_equals_ignoring_case(b"pmgr2\0", b"pmgr"));
    assert!(!c_text_equals_ignoring_case(b"pmg\0", b"pmgr"));
}

#[test]
fn dictionary_lookup_is_exact_and_last_write_wins() {
    let mut d = PropertyDictionary::new();
    assert!(d.get("name").is_none());
    d.insert(String::from("name"), PropertyValue::Bytes(vec![1, 2]));
    d.insert(String::from("Name"), PropertyValue::Bytes(vec![9]));
    d.insert(String::from("name"), PropertyValue::Bytes(vec![3]));
    assert_eq!(d.bytes("name"), Some(&[3u8][..]));
    assert_eq!(d.bytes("Name"), Some(&[9u8][..]));
    assert_eq!(d.bytes("nam"), None);
}

#[test]
fn value_of_other_kind_is_no_byte_buffer() {
    let mut d = PropertyDictionary::new();
    d.insert(String::from("name"), PropertyValue::Text(String::from("pmgr")));
    d.insert(String::from("compatible"), PropertyValue::Other);
    assert!(d.get("name").is_some());
    assert_eq!(d.bytes("name"), None);
    assert_eq!(d.bytes("compatible"), None);
}
