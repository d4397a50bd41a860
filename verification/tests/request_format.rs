use sandbench::request::build_empty_request;
use sandbench::request::build_request;
use sandbench::request::contains_blank_line;
use sandbench::request::MAX_REQUEST_SIZE;

#[test]
fn request_for_three_zero_bytes_has_exact_shape() {
    let bytes = build_request(vec![0, 0, 0]);
    let text = String::from_utf8(bytes).unwrap();
    // First line, correct Content-Length, and the payload after the blank line.
    assert!(text.starts_with("POST / HTTP/1.1\r\n"));
    let payload = "{\"data\":[0,0,0]}";
    assert!(text.contains(&format!("Content-Length: {}\r\n", payload.len())));
    assert!(text.ends_with(&format!("\r\n\r\n{}", payload)));
    assert_eq!(
        text,
        "POST / HTTP/1.1\r\nContent-Type: application/json\r\nContent-Length: 16\r\n\r\n{\"data\":[0,0,0]}"
    );
}

#[test]
fn request_for_empty_data_names_empty_array() {
    let bytes = build_request(Vec::new());
    assert_eq!(
        String::from_utf8(bytes).unwrap(),
        "POST / HTTP/1.1\r\nContent-Type: application/json\r\nContent-Length: 11\r\n\r\n{\"data\":[]}"
    );
}

#[test]
fn request_for_large_values_uses_decimal_numerals() {
    let bytes = build_request(vec![255, 10]);
    assert!(String::from_utf8(bytes).unwrap().ends_with("{\"data\":[255,10]}"));
}

#[test]
fn empty_request_has_zero_content_length_and_no_body() {
    let bytes = build_empty_request();
    assert_eq!(
        String::from_utf8(bytes).unwrap(),
        "POST / HTTP/1.1\r\nContent-Type: application/json\r\nContent-Length: 0\r\n\r\n"
    );
}

#[test]
fn request_size_cap_is_1024() {
    assert_eq!(MAX_REQUEST_SIZE, 1024);
}

#[test]
fn blank_line_found_after_headers() {
    assert!(contains_blank_line(b"HTTP/1.1 200 OK\r\nContent-Length: 2\r\n\r\nok"));
    assert!(contains_blank_line(b"abc\n\ndef"));
    assert!(contains_blank_line(b"\r\nrest"));
    assert!(contains_blank_line(b"\nrest"));
}

#[test]
fn blank_line_absent_in_unfinished_headers() {
    assert!(!contains_blank_line(b"HTTP/1.1 200 OK\r\nContent-Length: 2"));
    assert!(!contains_blank_line(b""));
    assert!(!contains_blank_line(b"abc\r\ndef\r\n"));
}
