use sandbench::echo::find_content_type;
use sandbench::echo::HttpService;
use sandbench::pool::SandboxPool;
use sandbench::respond::response_body_bytes;
use sandbench::server::bad_request_reply;
use sandbench::server::classify_request;
use sandbench::server::internal_error_reply;
use sandbench::server::invoke_reply;
use sandbench::server::prewarm_reply;
use sandbench::server::RequestClass;

#[test]
fn empty_body_asks_for_prewarm() {
    assert!(matches!(classify_request(&Vec::new()), RequestClass::Prewarm));
}

#[test]
fn data_body_asks_for_invoke() {
    let body = b"{\"data\":[1,2,3]}".to_vec();
    match classify_request(&body) {
        RequestClass::Invoke(data) => assert_eq!(data, vec![1, 2, 3]),
        _ => panic!("expected an invoke"),
    }
}

#[test]
fn junk_body_is_malformed() {
    assert!(matches!(classify_request(&b"nonsense".to_vec()), RequestClass::Malformed));
}

#[test]
fn control_bytes_escape_in_response() {
    // utf8-lossy of [1,2,3] is three control characters, escaped as \u00...
    let body = response_body_bytes(&vec![1, 2, 3]);
    assert_eq!(body, b"{\"response\":\"\\u0001\\u0002\\u0003\"}".to_vec());
}

#[test]
fn text_bytes_pass_through_response() {
    let body = response_body_bytes(&b"hi".to_vec());
    assert_eq!(body, b"{\"response\":\"hi\"}".to_vec());
}

#[test]
fn quotes_backslashes_and_newlines_escape_in_response() {
    let body = response_body_bytes(&b"a\"b\\c\nd\te\rf".to_vec());
    assert_eq!(body, b"{\"response\":\"a\\\"b\\\\c\\nd\\te\\rf\"}".to_vec());
}

#[test]
fn invalid_utf8_becomes_replacement_character() {
    let body = response_body_bytes(&vec![0xff]);
    // The replacement character U+FFFD, UTF-8 encoded, unescaped.
    assert_eq!(body, b"{\"response\":\"\xef\xbf\xbd\"}".to_vec());
}

#[test]
fn prewarm_grows_pool_by_one() {
    // A server started with two warm sandboxes receives one empty POST.
    let mut pool: SandboxPool<u32> = SandboxPool::new();
    pool.push_back(10);
    pool.push_back(11);
    let reply = prewarm_reply(&mut pool, Some(12));
    assert_eq!(reply.status, 204);
    assert!(reply.body.is_empty());
    assert_eq!(pool.len(), 3);
}

#[test]
fn failed_prewarm_leaves_pool_alone() {
    let mut pool: SandboxPool<u32> = SandboxPool::new();
    pool.push_back(10);
    let reply = prewarm_reply(&mut pool, None);
    assert_eq!(reply.status, 500);
    assert_eq!(pool.len(), 1);
}

#[test]
fn serving_returns_sandbox_to_pool() {
    let mut pool: SandboxPool<u32> = SandboxPool::new();
    pool.push_back(7);
    pool.push_back(8);
    let sandbox = pool.pop_front().unwrap();
    assert_eq!(sandbox, 7);
    let reply = invoke_reply(Some(b"ok".to_vec()));
    assert_eq!(reply.status, 200);
    pool.push_back(sandbox);
    assert_eq!(pool.len(), 2);
    assert_eq!(pool.pop_front(), Some(8));
    assert_eq!(pool.pop_front(), Some(7));
    assert_eq!(pool.pop_front(), None);
}

#[test]
fn guest_failure_gives_500_and_drops_sandbox() {
    let reply = invoke_reply(None);
    assert_eq!(reply.status, 500);
    assert!(reply.body.is_empty());
}

#[test]
fn error_replies_have_empty_bodies() {
    assert_eq!(bad_request_reply().status, 400);
    assert!(bad_request_reply().body.is_empty());
    assert_eq!(internal_error_reply().status, 500);
    assert!(internal_error_reply().body.is_empty());
}

#[test]
fn echo_service_echoes_data() {
    let _service = HttpService::new();
    let reply = HttpService::echo_reply(&b"{\"data\":[104,105]}".to_vec());
    assert_eq!(reply.status, 200);
    assert_eq!(reply.body, b"{\"response\":\"hi\"}".to_vec());
}

#[test]
fn echo_service_rejects_bad_bodies() {
    let reply = HttpService::echo_reply(&b"not json".to_vec());
    assert_eq!(reply.status, 400);
    assert!(reply.body.is_empty());
    let empty = HttpService::echo_reply(&Vec::new());
    assert_eq!(empty.status, 400);
}

#[test]
fn content_type_lookup_ignores_ascii_case() {
    let headers = vec![
        ("Host".to_string(), "x".to_string()),
        ("CONTENT-TYPE".to_string(), "application/json".to_string()),
        ("content-type".to_string(), "text/plain".to_string()),
    ];
    assert_eq!(find_content_type(&headers), Some("application/json".to_string()));
}

#[test]
fn content_type_lookup_reports_absence() {
    let headers = vec![("Host".to_string(), "x".to_string())];
    assert_eq!(find_content_type(&headers), None);
    assert_eq!(find_content_type(&Vec::new()), None);
}
