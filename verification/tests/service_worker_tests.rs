use browser_rpass::json::JsonValue;
use browser_rpass::native_message::{process_native_message, ResponsePayload};
use browser_rpass::ports::{PendingRequest, PortRegistry, RequestKind};
use browser_rpass::request::{DataFieldType, NotificationTarget, RequestEnum, RequestEnumTrait, SessionEventType};
use browser_rpass::response::{
    ErrorCode, FetchResponse, InitResponse, LoginResponse, ResponseEnum, Status,
};
use browser_rpass::router::{accept_port, route_request, Routing};
use browser_rpass::session::{SessionAction, SessionActionWrapper, SessionStore};
use browser_rpass::types::{Account, Resource};

fn payload() -> ResponsePayload {
    ResponsePayload { account: None, accounts: vec![], key_details: vec![] }
}

fn login_request(ack: &str, store: &str) -> RequestEnum {
    RequestEnum::create_login_request(Some(ack.to_string()), Some(store.to_string()), None, true)
}

#[test]
fn without_native_host_the_port_is_told_it_is_unreachable() {
    let mut ports = PortRegistry::new();
    let (_s, routed) = route_request(SessionStore::new(), &mut ports, login_request("a1", "work"), "popup".to_string(), false);
    match routed.routing {
        Routing::Whisper(e) => {
            assert!(matches!(e.event_type, SessionEventType::NativeAppConnectionError));
            assert!(matches!(&e.notification_target, NotificationTarget::Port { port_id } if port_id == "popup"));
        },
        _ => panic!("expected a whisper"),
    }
}

#[test]
fn a_login_request_is_forwarded_and_remembered() {
    let mut ports = PortRegistry::new();
    let (_s, routed) = route_request(SessionStore::new(), &mut ports, login_request("a1", "work"), "popup".to_string(), true);
    match routed.routing {
        Routing::Forward(r) => {
            assert!(matches!(&r, RequestEnum::Login(l) if l.header.as_ref().map(|h| h.len()) == Some(0)));
        },
        _ => panic!("expected a forward"),
    }
    assert!(ports.is_listening(&"work".to_string(), &"popup".to_string()));
    let pending = ports.get_request(&"a1".to_string()).expect("pending request");
    assert!(matches!(pending.kind, RequestKind::Login));
    assert_eq!(ports.take_port_id(&"a1".to_string()).as_deref(), Some("popup"));
}

#[test]
fn an_unnamed_port_takes_the_acknowledgement_as_its_name() {
    let mut ports = PortRegistry::new();
    let (_s, routed) = route_request(SessionStore::new(), &mut ports, login_request("a7", "work"), String::new(), true);
    assert_eq!(routed.port_name, "a7");
}

#[test]
fn a_fetch_of_a_loaded_store_is_answered_from_the_session() {
    let mut ports = PortRegistry::new();
    let session = SessionStore::new();
    let (session, _) = SessionActionWrapper {
        detail: Some(vec![
            (DataFieldType::StoreID, JsonValue::String("work".to_string())),
            (DataFieldType::IsDefault, JsonValue::Bool(false)),
        ]),
        action: SessionAction::Login { store_id: "work".to_string(), is_default: false, prev_store_id: None },
    }
    .apply(session, &mut ports);
    let acc = Account::new("alice".to_string(), "a1".to_string(), None, None, None);
    let (session, _) = SessionActionWrapper {
        detail: None,
        action: SessionAction::DataFetched { store_id: "work".to_string(), resource: Resource::Account, accounts: vec![acc], detail: vec![] },
    }
    .apply(session, &mut ports);
    let req = RequestEnum::create_fetch_request(Some("work".to_string()), None, Resource::Account, Some("f1".to_string()), None);
    let (_s, routed) = route_request(session, &mut ports, req, "popup".to_string(), true);
    match routed.routing {
        Routing::Whisper(e) => {
            assert!(matches!(e.event_type, SessionEventType::Refreshed));
            let data = e.data.unwrap();
            assert!(matches!(&data[0], (DataFieldType::Data, JsonValue::Array(a)) if a.len() == 1));
            assert!(matches!(&data[1], (DataFieldType::PortID, JsonValue::String(p)) if p == "popup"));
        },
        _ => panic!("expected a whisper"),
    }
}

#[test]
fn a_fetch_of_an_unknown_store_adds_it_and_is_forwarded() {
    let mut ports = PortRegistry::new();
    let req = RequestEnum::create_fetch_request(Some("new".to_string()), None, Resource::Account, Some("f2".to_string()), None);
    let (session, routed) = route_request(SessionStore::new(), &mut ports, req, "popup".to_string(), true);
    assert_eq!(session.stores.len(), 1);
    assert!(!session.stores[0].verified);
    assert!(matches!(routed.routing, Routing::Forward(RequestEnum::Fetch(_))));
}

#[test]
fn a_session_event_request_is_refused() {
    let mut ports = PortRegistry::new();
    let inner = RequestEnum::create_logout_request(Some("x".to_string()), None, None, None);
    let ack = inner.get_acknowledgement();
    assert!(ack.is_some());
    let event = browser_rpass::request::SessionEvent {
        data: None,
        event_type: SessionEventType::Search,
        meta: None,
        resource: None,
        is_global: false,
        acknowledgement: Some("ev1".to_string()),
        store_id_index: None,
        notification_target: NotificationTarget::All,
    };
    let req = RequestEnum::create_session_event_request(None, event, None, None);
    let (_s, routed) = route_request(SessionStore::new(), &mut ports, req, "popup".to_string(), true);
    match routed.routing {
        Routing::Reply(e) => {
            assert!(matches!(e.code, Some(ErrorCode::NotSupported)));
            assert_eq!(
                e.message.as_deref(),
                Some("resource not supported. received request: session_event_request")
            );
        },
        _ => panic!("expected a reply"),
    }
}

#[test]
fn a_connecting_port_without_name_gets_a_random_one() {
    let mut ports = PortRegistry::new();
    let name = accept_port(&mut ports, String::new());
    assert_eq!(name.len(), 30);
    assert!(ports.is_connected(&name));
    let named = accept_port(&mut ports, "popup".to_string());
    assert_eq!(named, "popup");
}

#[test]
fn a_successful_login_response_becomes_a_login_action() {
    let req = PendingRequest {
        kind: RequestKind::Login,
        store_id: Some("work".to_string()),
        prev_store_id: Some("old".to_string()),
        is_default: true,
        acknowledgement: Some("a1".to_string()),
    };
    let resp = ResponseEnum::LoginResponse(LoginResponse {
        store_id: "work".to_string(),
        acknowledgement: Some("a1".to_string()),
        detail: vec![],
        status: Status::Success,
    });
    let out = process_native_message(resp, Some(req), None, payload()).unwrap();
    let w = out.action.unwrap();
    match w.action {
        SessionAction::Login { store_id, is_default, prev_store_id } => {
            assert_eq!(store_id, "work");
            assert!(is_default);
            assert_eq!(prev_store_id.as_deref(), Some("old"));
        },
        _ => panic!("expected login"),
    }
    let ctx = w.detail.unwrap();
    assert_eq!(ctx.len(), 4);
    assert!(matches!(&ctx[3], (DataFieldType::Acknowledgement, JsonValue::String(a)) if a == "a1"));
}

#[test]
fn a_login_response_to_another_request_is_an_error() {
    let req = PendingRequest {
        kind: RequestKind::Fetch,
        store_id: Some("work".to_string()),
        prev_store_id: None,
        is_default: false,
        acknowledgement: Some("a1".to_string()),
    };
    let resp = ResponseEnum::LoginResponse(LoginResponse {
        store_id: "work".to_string(),
        acknowledgement: Some("a1".to_string()),
        detail: vec![],
        status: Status::Success,
    });
    let out = process_native_message(resp, Some(req), None, payload());
    assert_eq!(out.err().as_deref(), Some("response is for login request but request type is not login"));
}

#[test]
fn a_failed_fetch_or_init_is_an_error() {
    let fetch = ResponseEnum::FetchResponse(FetchResponse {
        acknowledgement: None,
        status: Status::Failure,
        store_id: "w".to_string(),
        resource: Resource::Account,
        detail: vec![],
    });
    assert_eq!(process_native_message(fetch, None, None, payload()).err().as_deref(), Some("error happened while fetching data"));
    let init = ResponseEnum::InitResponse(InitResponse { acknowledgement: None, detail: vec![], status: Status::Error });
    assert_eq!(process_native_message(init, None, None, payload()).err().as_deref(), Some("error happened while initializing"));
}

#[test]
fn an_init_response_lists_stores_and_keys() {
    let detail = vec![(
        DataFieldType::StoreIDList,
        JsonValue::Array(vec![JsonValue::String("a".to_string()), JsonValue::String("b".to_string())]),
    )];
    let key = vec![
        (DataFieldType::KeyID, JsonValue::String("K1".to_string())),
        (DataFieldType::KeyHasSecret, JsonValue::Bool(true)),
        (DataFieldType::KeyUsable, JsonValue::Bool(true)),
        (DataFieldType::CanSign, JsonValue::Bool(false)),
        (DataFieldType::CanEncrypt, JsonValue::Bool(true)),
    ];
    let init = ResponseEnum::InitResponse(InitResponse { acknowledgement: None, detail, status: Status::Success });
    let out = process_native_message(init, None, None, ResponsePayload { account: None, accounts: vec![], key_details: vec![key] }).unwrap();
    match out.action.unwrap().action {
        SessionAction::Init { store_ids, keys } => {
            assert_eq!(store_ids, vec!["a".to_string(), "b".to_string()]);
            assert_eq!(keys.len(), 1);
            assert_eq!(keys[0].id, "K1");
            assert!(keys[0].has_secret && keys[0].can_encrypt && !keys[0].can_sign);
        },
        _ => panic!("expected init"),
    }
}

#[test]
fn an_error_response_is_answered_as_unsupported() {
    let resp = ResponseEnum::ErrorResponse(browser_rpass::response::ErrorResponse {
        acknowledgement: Some("z".to_string()),
        message: None,
        code: None,
    });
    let out = process_native_message(resp, None, None, payload()).unwrap();
    assert!(out.action.is_none());
    let e = out.unsupported.unwrap();
    assert_eq!(e.message.as_deref(), Some("resource not supported"));
    assert_eq!(e.acknowledgement.as_deref(), Some("z"));
}
