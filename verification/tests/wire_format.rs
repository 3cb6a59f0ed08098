use server_lib::header::Header;
use server_lib::request::{Request, RequestType};
use server_lib::response::Resposne;

fn header(request_type: RequestType, time_created: u128, content_length: u64) -> Header {
    Header { time_created, content_length, request_type }
}

fn be16(v: u128) -> Vec<u8> {
    v.to_be_bytes().to_vec()
}

fn be8(v: u64) -> Vec<u8> {
    v.to_be_bytes().to_vec()
}

#[test]
fn request_type_codes() {
    assert_eq!(RequestType::Download("a".to_string()).to_u8(), 1);
    assert_eq!(RequestType::Ping.to_u8(), 2);
    assert_eq!(RequestType::Pwd.to_u8(), 3);
    assert_eq!(RequestType::Cd("a".to_string()).to_u8(), 4);
    assert_eq!(RequestType::Wrong.to_u8(), 5);
}

#[test]
fn from_u8_kinds_without_string() {
    assert_eq!(RequestType::from_u8(2, &[]), Some((RequestType::Ping, 0)));
    assert_eq!(RequestType::from_u8(3, &[9, 9]), Some((RequestType::Pwd, 0)));
    assert_eq!(RequestType::from_u8(5, &[]), Some((RequestType::Wrong, 0)));
    assert_eq!(RequestType::from_u8(0, &[]), None);
    assert_eq!(RequestType::from_u8(6, &[]), None);
}

#[test]
fn from_u8_reads_string_field() {
    let data = [0, 0, 0, 3, b'a', b'b', b'c', 7, 7];
    assert_eq!(RequestType::from_u8(1, &data), Some((RequestType::Download("abc".to_string()), 7)));
    assert_eq!(RequestType::from_u8(4, &data), Some((RequestType::Cd("abc".to_string()), 7)));
    let empty = [0, 0, 0, 0];
    assert_eq!(RequestType::from_u8(4, &empty), Some((RequestType::Cd(String::new()), 4)));
}

#[test]
fn header_bytes_without_string() {
    let h = header(RequestType::Ping, 1, 2);
    let mut expected = vec![2u8];
    expected.extend(be16(1));
    expected.extend(be8(2));
    assert_eq!(h.serialize(), expected);
    assert_eq!(h.serialize().len(), 25);
}

#[test]
fn header_bytes_with_string() {
    let h = header(RequestType::Download("ab".to_string()), 0x0102, 0x0304);
    let mut expected = vec![1u8, 0, 0, 0, 2, b'a', b'b'];
    expected.extend(be16(0x0102));
    expected.extend(be8(0x0304));
    assert_eq!(h.serialize(), expected);
}

#[test]
fn header_string_length_counts_bytes() {
    let h = header(RequestType::Cd("é".to_string()), 0, 0);
    let bytes = h.serialize();
    assert_eq!(&bytes[..7], &[4u8, 0, 0, 0, 2, 0xc3, 0xa9]);
}

#[test]
fn serialized_size_is_eight_short() {
    let ping = header(RequestType::Ping, 5, 6);
    assert_eq!(ping.serialized_size(), 17);
    assert_eq!(ping.serialize().len(), ping.serialized_size() + 8);
    let dl = header(RequestType::Download("abc".to_string()), 5, 6);
    assert_eq!(dl.serialized_size(), 24);
    assert_eq!(dl.serialize().len(), dl.serialized_size() + 8);
}

#[test]
fn header_roundtrip_every_kind() {
    let kinds = vec![
        RequestType::Download("file.txt".to_string()),
        RequestType::Ping,
        RequestType::Pwd,
        RequestType::Cd("..\\dir".to_string()),
        RequestType::Wrong,
    ];
    for kind in kinds {
        let h = header(kind, u128::MAX - 3, u64::MAX - 5);
        let bytes = h.serialize();
        assert!(Header::is_well_framed(&bytes));
        let back = Header::deserialize(&bytes).unwrap();
        assert_eq!(back.request_type, h.request_type);
        assert_eq!(back.time_created, h.time_created);
        assert_eq!(back.content_length, h.content_length);
    }
}

#[test]
fn header_ignores_trailing_bytes() {
    let h = header(RequestType::Pwd, 42, 7);
    let mut bytes = h.serialize();
    bytes.extend([1, 2, 3]);
    let back = Header::deserialize(&bytes).unwrap();
    assert_eq!(back.request_type, RequestType::Pwd);
    assert_eq!(back.time_created, 42);
    assert_eq!(back.content_length, 7);
}

#[test]
fn header_rejects_short_input() {
    let data = [2u8; 15];
    assert!(Header::is_well_framed(&data));
    assert!(Header::deserialize(&data).is_none());
}

#[test]
fn header_rejects_unknown_code() {
    let mut data = vec![9u8];
    data.extend([0u8; 30]);
    assert!(Header::is_well_framed(&data));
    assert!(Header::deserialize(&data).is_none());
}

#[test]
fn header_rejects_too_little_after_string() {
    // string field of 6 bytes, then 14 bytes: fewer than 16 after the field
    let mut data = vec![1u8, 0, 0, 0, 2, b'a', b'b'];
    data.extend([0u8; 14]);
    assert!(Header::is_well_framed(&data));
    assert!(Header::deserialize(&data).is_none());
}

#[test]
fn header_framing_faults() {
    // enough for 16 bytes after the kind but not for 24: reading cannot complete
    let mut ping = vec![2u8];
    ping.extend([0u8; 20]);
    assert!(!Header::is_well_framed(&ping));
    // a string field that is not UTF-8
    let mut bad_text = vec![1u8, 0, 0, 0, 1, 0xff];
    bad_text.extend([0u8; 24]);
    assert!(!Header::is_well_framed(&bad_text));
    // a string field longer than the data
    let mut cut = vec![4u8, 0, 0, 1, 0];
    cut.extend([0u8; 24]);
    assert!(!Header::is_well_framed(&cut));
    // exactly 24 bytes after the kind is enough
    let mut exact = vec![3u8];
    exact.extend([0u8; 24]);
    assert!(Header::is_well_framed(&exact));
}

#[test]
fn request_new_and_roundtrip() {
    let req = Request::new(header(RequestType::Cd("x".to_string()), 11, 1));
    assert_eq!(req.header.time_created, 11);
    let bytes = req.serialize();
    assert_eq!(bytes, req.header.serialize());
    let back = Request::deserialize(&bytes).unwrap();
    assert_eq!(back.header.request_type, RequestType::Cd("x".to_string()));
    assert_eq!(back.header.time_created, 11);
    assert_eq!(back.header.content_length, 1);
}

#[test]
fn request_rejects_short_input() {
    assert!(Request::deserialize(&[2u8, 0, 0]).is_none());
    assert!(Request::deserialize(&[]).is_none());
}

#[test]
fn response_new_has_empty_body() {
    let r = Resposne::new(header(RequestType::Ping, 3, 0));
    assert!(r.body.is_empty());
    assert_eq!(r.header.time_created, 3);
}

#[test]
fn response_bytes_are_header_then_body() {
    let mut r = Resposne::new(header(RequestType::Pwd, 3, 4));
    r.body = vec![10, 20, 30];
    let mut expected = r.header.serialize();
    expected.extend([10, 20, 30]);
    assert_eq!(r.serialize(), expected);
}

#[test]
fn response_body_read_from_serialized_size() {
    let mut r = Resposne::new(header(RequestType::Download("f".to_string()), 3, 0x0a0b));
    r.body = b"hello".to_vec();
    let bytes = r.serialize();
    let back = Resposne::deserialize(&bytes).unwrap();
    assert_eq!(back.header.request_type, RequestType::Download("f".to_string()));
    assert_eq!(back.header.content_length, 0x0a0b);
    let mut expected_body = be8(0x0a0b);
    expected_body.extend(b"hello");
    assert_eq!(back.body, expected_body);
}

#[test]
fn response_rejects_unknown_code() {
    let mut data = vec![0u8];
    data.extend([0u8; 40]);
    assert!(Resposne::deserialize(&data).is_none());
}

#[test]
fn header_new_keeps_kind_and_length() {
    let h = Header::new(RequestType::Wrong, 99);
    assert_eq!(h.request_type, RequestType::Wrong);
    assert_eq!(h.content_length, 99);
    assert!(h.time_created > 0);
}
