//! The path forms, the reparse record and the host error codes.

use junction::codec::{decode, encode, is_mount_point, removal_request};
use junction::error::classify;
use junction::path::{starts_with_marker, to_external, to_internal};
use junction::JunctionError;

fn wide(text: &str) -> Vec<u16> {
    text.encode_utf16().collect()
}

#[test]
fn to_internal_puts_the_marker_first() {
    assert_eq!(to_internal(&wide(r"C:\Users")), wide(r"\??\C:\Users"));
    assert_eq!(to_internal(&wide("")), wide(r"\??\"));
}

#[test]
fn to_external_takes_one_marker_off() {
    assert_eq!(to_external(&wide(r"\??\C:\Users")), wide(r"C:\Users"));
    assert_eq!(to_external(&wide(r"C:\Users")), wide(r"C:\Users"));
    assert_eq!(to_external(&wide(r"\??\\??\C:")), wide(r"\??\C:"));
    assert_eq!(to_external(&wide(r"\??")), wide(r"\??"));
    assert_eq!(to_external(&wide("")), wide(""));
}

#[test]
fn marker_is_found_only_at_the_start() {
    assert!(starts_with_marker(&wide(r"\??\")));
    assert!(!starts_with_marker(&wide(r"C:\??\")));
    assert!(!starts_with_marker(&wide(r"\?\\")));
}

#[test]
fn path_forms_round_trip() {
    for text in ["C:\\", r"C:\Users\Default", r"\\server\share", r"\??\C:\x", ""] {
        let path = wide(text);
        assert_eq!(to_external(&to_internal(&path)), path);
    }
}

#[test]
fn encode_lays_out_the_record() {
    let bytes = encode(&wide(r"\??\C:\t")).unwrap();
    let expected: Vec<u8> = vec![
        0x03, 0x00, 0x00, 0xA0, // tag
        0x24, 0x00, // data length: 8 + 16 + 2 + 8 + 2
        0x00, 0x00, // reserved
        0x00, 0x00, 0x10, 0x00, // substitute name: at 0, 16 bytes
        0x12, 0x00, 0x08, 0x00, // print name: at 18, 8 bytes
        0x5C, 0x00, 0x3F, 0x00, 0x3F, 0x00, 0x5C, 0x00, 0x43, 0x00, 0x3A, 0x00, 0x5C, 0x00, 0x74,
        0x00, 0x00, 0x00, 0x43, 0x00, 0x3A, 0x00, 0x5C, 0x00, 0x74, 0x00, 0x00, 0x00,
    ];
    assert_eq!(bytes, expected);
}

#[test]
fn encode_keeps_both_bytes_of_a_unit() {
    let target: Vec<u16> = vec![0x1234, 0xFFFE, 0x00FF, 0xFF00];
    let bytes = encode(&target).unwrap();
    assert_eq!(&bytes[16..24], &[0x34, 0x12, 0xFE, 0xFF, 0xFF, 0x00, 0x00, 0xFF]);
    assert_eq!(decode(&bytes), Ok(target));
}

#[test]
fn empty_substitute_name_round_trips() {
    let bytes = encode(&Vec::new()).unwrap();
    let expected: Vec<u8> = vec![
        0x03, 0x00, 0x00, 0xA0, 0x0C, 0x00, 0x00, 0x00, 0x00, 0x00, 0x00, 0x00, 0x02, 0x00, 0x00,
        0x00, 0x00, 0x00, 0x00, 0x00,
    ];
    assert_eq!(bytes, expected);
    assert_eq!(decode(&bytes), Ok(Vec::new()));
}

#[test]
fn record_round_trips() {
    for text in [r"\??\C:\Users\Default", r"C:\no marker", r"\??\", "x"] {
        let target = wide(text);
        assert_eq!(decode(&encode(&target).unwrap()), Ok(target));
    }
}

#[test]
fn encode_refuses_what_passes_the_limit() {
    // with the marker: 20 + 2 * 4093 + 2 * 4089 = 16384
    let mut target = wide(r"\??\");
    target.extend(std::iter::repeat(0x61u16).take(4089));
    assert_eq!(encode(&target).unwrap().len(), 16384);
    target.push(0x61);
    assert_eq!(encode(&target), Err(JunctionError::BufferTooLarge));

    // without the marker the print name is as long as the substitute name
    let plain: Vec<u16> = vec![0x61; 4091];
    assert_eq!(encode(&plain).unwrap().len(), 16384);
    let plain: Vec<u16> = vec![0x61; 4092];
    assert_eq!(encode(&plain), Err(JunctionError::BufferTooLarge));
    let huge: Vec<u16> = vec![0x61; 40000];
    assert_eq!(encode(&huge), Err(JunctionError::BufferTooLarge));
}

#[test]
fn decode_judges_the_tag_first() {
    assert_eq!(decode(&Vec::new()), Err(JunctionError::NotAJunction));
    assert_eq!(decode(&vec![0x03, 0x00, 0x00]), Err(JunctionError::NotAJunction));
    let mut bytes = encode(&wide(r"\??\C:\t")).unwrap();
    bytes[0] = 0x0C;
    assert_eq!(decode(&bytes), Err(JunctionError::NotAJunction));
    assert!(!is_mount_point(&bytes));
    bytes[0] = 0x03;
    assert!(is_mount_point(&bytes));
    bytes[3] = 0x80;
    assert_eq!(decode(&bytes), Err(JunctionError::NotAJunction));
}

#[test]
fn decode_refuses_lengths_that_disagree() {
    let good = encode(&wide(r"\??\C:\t")).unwrap();
    assert_eq!(decode(&good), Ok(wide(r"\??\C:\t")));

    // the header alone
    assert_eq!(decode(&good[..8].to_vec()), Err(JunctionError::CorruptData));
    assert_eq!(decode(&good[..15].to_vec()), Err(JunctionError::CorruptData));
    // the record cut short
    assert_eq!(decode(&good[..good.len() - 1].to_vec()), Err(JunctionError::CorruptData));
    // a data length too small to hold the four words
    let mut bytes = good.clone();
    bytes[4] = 0x07;
    assert_eq!(decode(&bytes), Err(JunctionError::CorruptData));
    // a substitute name that passes the data
    let mut bytes = good.clone();
    bytes[10] = 0x1E;
    assert_eq!(decode(&bytes), Err(JunctionError::CorruptData));
    // a substitute name of half a unit
    let mut bytes = good.clone();
    bytes[10] = 0x0F;
    assert_eq!(decode(&bytes), Err(JunctionError::CorruptData));
    let mut bytes = good.clone();
    bytes[8] = 0x01;
    assert_eq!(decode(&bytes), Err(JunctionError::CorruptData));
    // a print name that passes the data
    let mut bytes = good.clone();
    bytes[14] = 0x0C;
    assert_eq!(decode(&bytes), Err(JunctionError::CorruptData));
    // bytes after the data are no fault
    let mut bytes = good.clone();
    bytes.extend_from_slice(&[0xEE, 0xEE]);
    assert_eq!(decode(&bytes), Ok(wide(r"\??\C:\t")));
}

#[test]
fn decode_reads_a_record_without_print_name() {
    // substitute name "\??\C:" at offset 0, print name empty at offset 14
    let bytes: Vec<u8> = vec![
        0x03, 0x00, 0x00, 0xA0, 0x18, 0x00, 0x00, 0x00, 0x00, 0x00, 0x0C, 0x00, 0x0E, 0x00, 0x00,
        0x00, 0x5C, 0x00, 0x3F, 0x00, 0x3F, 0x00, 0x5C, 0x00, 0x43, 0x00, 0x3A, 0x00, 0x00, 0x00,
        0x00, 0x00,
    ];
    assert_eq!(decode(&bytes), Ok(wide(r"\??\C:")));
}

#[test]
fn decode_reads_a_name_at_an_offset() {
    // print name first, substitute name "ab" at offset 4
    let bytes: Vec<u8> = vec![
        0x03, 0x00, 0x00, 0xA0, 0x12, 0x00, 0x00, 0x00, 0x04, 0x00, 0x04, 0x00, 0x00, 0x00, 0x02,
        0x00, 0x7A, 0x00, 0x00, 0x00, 0x61, 0x00, 0x62, 0x00, 0x00, 0x00,
    ];
    assert_eq!(decode(&bytes), Ok(wide("ab")));
}

#[test]
fn removal_request_is_the_bare_header() {
    assert_eq!(removal_request(), vec![0x03, 0x00, 0x00, 0xA0, 0x00, 0x00, 0x00, 0x00]);
}

#[test]
fn classify_names_the_known_codes() {
    assert_eq!(classify(2), JunctionError::NotFound);
    assert_eq!(classify(3), JunctionError::NotFound);
    assert_eq!(classify(80), JunctionError::AlreadyExists);
    assert_eq!(classify(0xb7), JunctionError::AlreadyExists);
    assert_eq!(classify(0x1126), JunctionError::NotAJunction);
    assert_eq!(classify(4393), JunctionError::NotAJunction);
    assert_eq!(classify(4394), JunctionError::NotAJunction);
    assert_eq!(classify(4392), JunctionError::CorruptData);
    assert_eq!(classify(5), JunctionError::Io(5));
    assert_eq!(classify(0), JunctionError::Io(0));
}

#[test]
fn host_code_gives_the_code_back() {
    assert_eq!(JunctionError::NotFound.host_code(), Some(2));
    assert_eq!(JunctionError::NotAJunction.host_code(), Some(0x1126));
    assert_eq!(JunctionError::AlreadyExists.host_code(), Some(0xb7));
    assert_eq!(JunctionError::CorruptData.host_code(), Some(4392));
    assert_eq!(JunctionError::Io(5).host_code(), Some(5));
    assert_eq!(JunctionError::TargetInvalid.host_code(), None);
    assert_eq!(JunctionError::BufferTooLarge.host_code(), None);
    for code in [2u32, 3, 5, 80, 183, 4390, 4392, 4393, 4394, 70000] {
        let back = classify(code).host_code().unwrap();
        assert_eq!(classify(back), classify(code));
    }
}
