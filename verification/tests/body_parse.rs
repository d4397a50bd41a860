use sandbench::jsonparse::parse_data_body_exec;
use sandbench::request::build_request;

#[test]
fn parses_compact_body() {
    let body = b"{\"data\":[1,2,3]}".to_vec();
    assert_eq!(parse_data_body_exec(&body), Some(vec![1, 2, 3]));
}

#[test]
fn parses_body_with_whitespace() {
    let body = b" { \"data\" : [ 1 , 2 , 255 ] } ".to_vec();
    assert_eq!(parse_data_body_exec(&body), Some(vec![1, 2, 255]));
}

#[test]
fn parses_empty_array() {
    let body = b"{\"data\":[]}".to_vec();
    assert_eq!(parse_data_body_exec(&body), Some(Vec::new()));
}

#[test]
fn parses_single_zero() {
    let body = b"{\"data\":[0]}".to_vec();
    assert_eq!(parse_data_body_exec(&body), Some(vec![0]));
}

#[test]
fn rejects_value_out_of_byte_range() {
    let body = b"{\"data\":[256]}".to_vec();
    assert_eq!(parse_data_body_exec(&body), None);
}

#[test]
fn rejects_leading_zero_numeral() {
    let body = b"{\"data\":[01]}".to_vec();
    assert_eq!(parse_data_body_exec(&body), None);
}

#[test]
fn rejects_missing_object() {
    assert_eq!(parse_data_body_exec(&b"[1,2,3]".to_vec()), None);
    assert_eq!(parse_data_body_exec(&Vec::new()), None);
    assert_eq!(parse_data_body_exec(&b"{\"other\":[1]}".to_vec()), None);
}

#[test]
fn rejects_trailing_text() {
    let body = b"{\"data\":[1]}x".to_vec();
    assert_eq!(parse_data_body_exec(&body), None);
}

#[test]
fn rejects_trailing_comma() {
    let body = b"{\"data\":[1,]}".to_vec();
    assert_eq!(parse_data_body_exec(&body), None);
}

#[test]
fn round_trip_through_request_body() {
    // The JSON part of a built request parses back to the same bytes.
    for data in [vec![], vec![0], vec![7, 0, 255], (0u8..=255).collect::<Vec<u8>>()] {
        let request = build_request(data.clone());
        let text = String::from_utf8(request).unwrap();
        let body_start = text.find("\r\n\r\n").unwrap() + 4;
        let body = text[body_start..].as_bytes().to_vec();
        assert_eq!(parse_data_body_exec(&body), Some(data));
    }
}
