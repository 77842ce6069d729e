use browser_rpass::json::JsonValue;
use browser_rpass::native_host::{
    encode_frame, failure_response, filter_entries, frame_length, get_store, host_call, init_report,
    string_message_frame, unknown_request_response, HostCall,
};
use browser_rpass::request::{DataFieldType, RequestEnum};
use browser_rpass::response::{ResponseEnum, Status};
use browser_rpass::types::{Key, Resource};

#[test]
fn a_frame_starts_with_the_little_endian_length() {
    let frame = encode_frame(b"hello");
    assert_eq!(frame, vec![5, 0, 0, 0, b'h', b'e', b'l', b'l', b'o']);
    assert_eq!(frame_length(&frame[0..4]), 5);
}

#[test]
fn frame_length_reads_all_four_bytes() {
    assert_eq!(frame_length(&[0x01, 0x02, 0x03, 0x04]), 0x04030201);
    let content = vec![7u8; 300];
    let frame = encode_frame(&content);
    assert_eq!(&frame[0..4], &[44, 1, 0, 0]);
    assert_eq!(frame_length(&frame[0..4]) as usize, 300);
}

#[test]
fn a_text_message_travels_as_a_json_string() {
    let frame = string_message_frame("{\"a\":1}");
    let body = b"\"{\\\"a\\\":1}\"";
    assert_eq!(frame_length(&frame[0..4]) as usize, body.len());
    assert_eq!(&frame[4..], &body[..]);
}

#[test]
fn requests_for_unknown_stores_get_no_handler() {
    let fetch = RequestEnum::create_fetch_request(Some("s".to_string()), None, Resource::Account, Some("a".to_string()), None);
    assert!(matches!(host_call(&fetch, true), HostCall::Fetch));
    assert!(matches!(host_call(&fetch, false), HostCall::Unknown));
    let init = RequestEnum::create_init_request(vec![], Some("a".to_string()), None);
    assert!(matches!(host_call(&init, false), HostCall::Init));
    let logout = RequestEnum::create_logout_request(Some("a".to_string()), None, None, None);
    assert!(matches!(host_call(&logout, false), HostCall::Logout));
}

#[test]
fn a_failed_login_is_answered_with_the_error() {
    let login = RequestEnum::create_login_request(Some("a".to_string()), Some("s".to_string()), None, false);
    let resp = failure_response(login, JsonValue::String("bad passphrase".to_string()), JsonValue::Null);
    match resp {
        ResponseEnum::LoginResponse(r) => {
            assert!(matches!(r.status, Status::Failure));
            assert_eq!(r.store_id, "s");
            assert_eq!(r.acknowledgement.as_deref(), Some("a"));
            assert!(matches!(&r.detail[0], (DataFieldType::ErrorMessage, JsonValue::String(m)) if m == "bad passphrase"));
        },
        _ => panic!("expected a login response"),
    }
}

#[test]
fn a_failed_fetch_is_answered_with_no_data() {
    let fetch = RequestEnum::create_fetch_request(Some("s".to_string()), None, Resource::Account, Some("a".to_string()), None);
    match failure_response(fetch, JsonValue::Null, JsonValue::Null) {
        ResponseEnum::FetchResponse(r) => {
            assert!(matches!(&r.detail[0], (DataFieldType::Data, JsonValue::Array(items)) if items.is_empty()));
        },
        _ => panic!("expected a fetch response"),
    }
}

#[test]
fn an_unknown_request_is_answered_with_a_generic_error() {
    let fetch = RequestEnum::create_fetch_request(Some("s".to_string()), None, Resource::Account, Some("a".to_string()), None);
    match unknown_request_response(&fetch, JsonValue::Null) {
        ResponseEnum::GenericError(e) => {
            assert_eq!(e.acknowledgement.as_deref(), Some("a"));
            assert!(matches!(&e.detail[0], (DataFieldType::ErrorMessage, JsonValue::String(m)) if m == "Unknown request"));
        },
        _ => panic!("expected a generic error"),
    }
}

#[test]
fn the_init_report_lists_only_usable_keys() {
    let mut usable = Key::new("K1".to_string(), None, None);
    usable.is_usable = true;
    let unusable = Key::new("K2".to_string(), None, None);
    let report = init_report(Some("a".to_string()), &vec!["s1".to_string()], &vec![usable, unusable]);
    assert!(matches!(report.status, Status::Success));
    assert!(matches!(&report.detail[1], (DataFieldType::Keys, JsonValue::Array(items)) if items.len() == 1));
}

#[test]
fn entries_are_found_ignoring_case() {
    let ids = vec!["Mail/Google".to_string(), "bank".to_string(), "GMAIL-work".to_string()];
    let found = filter_entries(&ids, "gMa");
    assert_eq!(found, vec!["GMAIL-work".to_string()]);
    let found = filter_entries(&ids, "mail");
    assert_eq!(found, vec!["Mail/Google".to_string(), "GMAIL-work".to_string()]);
}

#[test]
fn a_request_finds_the_first_store_with_its_name() {
    let names = vec!["home".to_string(), "work".to_string(), "work".to_string()];
    let fetch = RequestEnum::create_fetch_request(Some("work".to_string()), None, Resource::Account, Some("a".to_string()), None);
    assert_eq!(get_store(&fetch, &names), Some(1));
    let other = RequestEnum::create_fetch_request(Some("team".to_string()), None, Resource::Account, Some("a".to_string()), None);
    assert_eq!(get_store(&other, &names), None);
    let init = RequestEnum::create_init_request(vec![], Some("a".to_string()), None);
    assert_eq!(get_store(&init, &names), None);
}
