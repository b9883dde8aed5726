use white_whale::reply_data::instantiated_address;

fn address(bytes: &[u8]) -> Option<String> {
    instantiated_address(&bytes.to_vec())
}

#[test]
fn the_address_is_field_one() {
    let mut data = vec![0x0a, 4];
    data.extend_from_slice(b"nft1");
    assert_eq!(address(&data), Some("nft1".to_string()));
    // the contract's own data, field 2, follows
    data.extend_from_slice(&[0x12, 2, 1, 2]);
    assert_eq!(address(&data), Some("nft1".to_string()));
}

#[test]
fn a_later_address_replaces_an_earlier_one() {
    let data = [0x0a, 1, b'a', 0x0a, 2, b'b', b'c'];
    assert_eq!(address(&data), Some("bc".to_string()));
}

#[test]
fn no_address_reads_as_the_empty_one() {
    assert_eq!(address(&[]), Some(String::new()));
    assert_eq!(address(&[0x12, 0]), Some(String::new()));
}

#[test]
fn unknown_fields_are_skipped() {
    // field 3 as a two-byte varint, field 4 as fixed 64 bits, field 5 as fixed 32 bits,
    // field 6 length-delimited
    let mut data = vec![0x18, 0x96, 0x01, 0x21, 0, 0, 0, 0, 0, 0, 0, 0, 0x2d, 0, 0, 0, 0, 0x32, 1, 9];
    data.extend_from_slice(&[0x0a, 1, b'x']);
    assert_eq!(address(&data), Some("x".to_string()));
    // a group of field 7 holding a varint field, then its end
    let data = [0x3b, 0x08, 5, 0x3c, 0x0a, 1, b'y'];
    assert_eq!(address(&data), Some("y".to_string()));
}

#[test]
fn malformed_data_is_refused() {
    // the address runs past the end
    assert_eq!(address(&[0x0a, 5, b'a']), None);
    // field 1 as a varint
    assert_eq!(address(&[0x08, 1]), None);
    // an address that is not UTF-8
    assert_eq!(address(&[0x0a, 1, 0xff]), None);
    // an end-group tag out of a group
    assert_eq!(address(&[0x24]), None);
    // field number 0
    assert_eq!(address(&[0x02, 0]), None);
    // wire type 6
    assert_eq!(address(&[0x0e]), None);
    // a group inside a group
    assert_eq!(address(&[0x3b, 0x43, 0x44, 0x3c]), None);
    // a group that never ends
    assert_eq!(address(&[0x3b, 0x08, 5]), None);
    // a varint of eleven bytes
    let mut data = vec![0x18];
    data.extend_from_slice(&[0x80; 10]);
    data.push(1);
    assert_eq!(address(&data), None);
    // a truncated tag
    assert_eq!(address(&[0x80]), None);
}

#[test]
fn a_ten_byte_tag_keeps_its_low_bits() {
    // the tag of field 1, length-delimited, padded to ten bytes
    let data = [0x8a, 0x80, 0x80, 0x80, 0x80, 0x80, 0x80, 0x80, 0x80, 0x00, 1, b'z'];
    assert_eq!(address(&data), Some("z".to_string()));
}
