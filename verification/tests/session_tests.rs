use browser_rpass::json::JsonValue;
use browser_rpass::ports::{PendingRequest, PortRegistry, RequestKind};
use browser_rpass::request::{DataFieldType, NotificationTarget, SessionEventType};
use browser_rpass::response::{CreateResponse, ResponseEnum, Status};
use browser_rpass::session::{SessionAction, SessionActionWrapper, SessionStore};
use browser_rpass::types::{Account, Key, Resource, StateStoreStatus, StorageStatus};

fn account(id: &str, username: &str) -> Account {
    Account::new(username.to_string(), id.to_string(), Some("example.com".to_string()), Some("pw".to_string()), None)
}

fn ports_with(names: &[&str]) -> PortRegistry {
    let mut ports = PortRegistry::new();
    for n in names {
        ports.connect(n.to_string());
    }
    ports
}

fn ack_detail(ack: &str) -> Option<Vec<(DataFieldType, JsonValue)>> {
    Some(vec![(DataFieldType::Acknowledgement, JsonValue::String(ack.to_string()))])
}

fn run(store: SessionStore, ports: &mut PortRegistry, detail: Option<Vec<(DataFieldType, JsonValue)>>, action: SessionAction) -> (SessionStore, Option<browser_rpass::session::Broadcast>) {
    SessionActionWrapper { detail, action }.apply(store, ports)
}

fn login_detail(id: &str, is_default: bool, prev: Option<&str>) -> Option<Vec<(DataFieldType, JsonValue)>> {
    Some(vec![
        (DataFieldType::StoreID, JsonValue::String(id.to_string())),
        (DataFieldType::PrevStoreID, match prev {
            Some(p) => JsonValue::String(p.to_string()),
            None => JsonValue::Null,
        }),
        (DataFieldType::IsDefault, JsonValue::Bool(is_default)),
        (DataFieldType::Acknowledgement, JsonValue::String("ack-login".to_string())),
    ])
}

fn login(store: SessionStore, ports: &mut PortRegistry, id: &str, is_default: bool, prev: Option<&str>) -> (SessionStore, Option<browser_rpass::session::Broadcast>) {
    run(
        store,
        ports,
        login_detail(id, is_default, prev),
        SessionAction::Login { store_id: id.to_string(), is_default, prev_store_id: prev.map(|p| p.to_string()) },
    )
}

#[test]
fn a_login_takes_its_store_from_the_detail() {
    let mut ports = PortRegistry::new();
    let (store, out) = run(
        SessionStore::new(),
        &mut ports,
        login_detail("b", true, None),
        SessionAction::Login { store_id: "a".to_string(), is_default: false, prev_store_id: None },
    );
    assert_eq!(store.stores.len(), 1);
    assert_eq!(store.stores[0].store_id, "b");
    assert!(store.stores[0].verified);
    assert_eq!(store.default_store.as_deref(), Some("b"));
    assert!(out.is_some());
}

#[test]
fn login_unlocks_a_new_store_and_tells_its_listeners() {
    let mut ports = ports_with(&["popup", "other"]);
    ports.listen(&"work".to_string(), &"popup".to_string());
    let (store, out) = login(SessionStore::new(), &mut ports, "work", true, None);
    assert_eq!(store.stores.len(), 1);
    assert_eq!(store.stores[0].store_id, "work");
    assert!(store.stores[0].verified);
    assert_eq!(store.default_store.as_deref(), Some("work"));
    let b = out.expect("a login event");
    assert!(matches!(b.event.event_type, SessionEventType::Login));
    assert_eq!(b.recipients, vec!["popup".to_string()]);
    assert_eq!(b.event.acknowledgement.as_deref(), Some("ack-login"));
    assert!(!b.event.is_global);
    let data = b.event.data.expect("login data");
    assert_eq!(data.len(), 3);
    assert!(matches!(data[0], (DataFieldType::Verified, JsonValue::Bool(true))));
    assert!(matches!(&data[1], (DataFieldType::StoreID, JsonValue::String(s)) if s == "work"));
    assert!(matches!(data[2], (DataFieldType::IsDefault, JsonValue::Bool(true))));
}

#[test]
fn login_from_another_store_stops_listeners_of_the_previous_one() {
    let mut ports = ports_with(&["popup"]);
    ports.listen(&"old".to_string(), &"popup".to_string());
    let (_store, _out) = login(SessionStore::new(), &mut ports, "new", false, Some("old"));
    assert!(!ports.is_listening(&"old".to_string(), &"popup".to_string()));
}

#[test]
fn login_then_logout_locks_the_store() {
    let mut ports = ports_with(&["popup"]);
    ports.listen(&"work".to_string(), &"popup".to_string());
    let (store, _) = login(SessionStore::new(), &mut ports, "work", false, None);
    let (store, out) = run(store, &mut ports, ack_detail("ack-logout"), SessionAction::Logout(Some("work".to_string()), None));
    assert!(!store.stores[0].verified);
    assert!(matches!(store.stores[0].storage_status, StorageStatus::Uninitialized));
    let b = out.expect("a logout event");
    assert!(matches!(b.event.event_type, SessionEventType::Logout));
    assert_eq!(b.recipients, vec!["popup".to_string()]);
    assert!(!ports.is_listening(&"work".to_string(), &"popup".to_string()));
}

#[test]
fn logout_of_a_locked_store_reports_an_error_to_nobody() {
    let mut ports = ports_with(&["popup"]);
    let (store, _) = run(
        SessionStore::new(),
        &mut ports,
        None,
        SessionAction::Init { store_ids: vec!["work".to_string()], keys: vec![] },
    );
    let (_store, out) = run(store, &mut ports, None, SessionAction::Logout(Some("work".to_string()), None));
    let b = out.expect("an event");
    assert!(matches!(b.event.event_type, SessionEventType::LogoutError));
    assert!(matches!(b.event.notification_target, NotificationTarget::Nobody));
    assert!(b.recipients.is_empty());
}

#[test]
fn logout_of_an_unknown_store_changes_nothing() {
    let mut ports = ports_with(&["popup"]);
    let (store, out) = run(SessionStore::new(), &mut ports, None, SessionAction::Logout(Some("x".to_string()), None));
    assert!(out.is_none());
    assert!(store.stores.is_empty());
}

#[test]
fn logout_of_all_stores_locks_every_store_and_tells_every_port() {
    let mut ports = ports_with(&["a", "b"]);
    let (store, _) = login(SessionStore::new(), &mut ports, "one", false, None);
    let (store, _) = login(store, &mut ports, "two", false, None);
    let (store, out) = run(store, &mut ports, None, SessionAction::Logout(None, None));
    assert!(store.stores.iter().all(|s| !s.verified && s.accounts.is_empty()));
    let b = out.unwrap();
    assert!(b.event.is_global);
    assert_eq!(b.recipients, vec!["a".to_string(), "b".to_string()]);
}

#[test]
fn init_adds_each_new_store_once_and_reports_to_every_port() {
    let mut ports = ports_with(&["p"]);
    let (store, _) = login(SessionStore::new(), &mut ports, "work", false, None);
    let keys = vec![Key::new("ABC".to_string(), Some("me".to_string()), None)];
    let ids = vec!["home".to_string(), "work".to_string(), "home".to_string()];
    let (store, out) = run(store, &mut ports, None, SessionAction::Init { store_ids: ids, keys });
    let names: Vec<&str> = store.stores.iter().map(|s| s.store_id.as_str()).collect();
    assert_eq!(names, vec!["work", "home"]);
    assert!(store.stores[0].verified);
    assert!(!store.stores[1].verified);
    assert!(matches!(store.status, StateStoreStatus::Loaded));
    assert_eq!(store.keys.len(), 1);
    let b = out.unwrap();
    assert!(matches!(b.event.event_type, SessionEventType::Init(_)));
    assert_eq!(b.recipients, vec!["p".to_string()]);
    let data = b.event.data.unwrap();
    match &data[0] {
        (DataFieldType::StoreIDList, JsonValue::Array(items)) => assert_eq!(items.len(), 3),
        _ => panic!("store ids first"),
    }
}

#[test]
fn fetched_accounts_replace_the_store_accounts() {
    let mut ports = ports_with(&["p"]);
    let (store, _) = login(SessionStore::new(), &mut ports, "work", false, None);
    let (store, out) = run(
        store,
        &mut ports,
        None,
        SessionAction::DataFetched {
            store_id: "work".to_string(),
            resource: Resource::Account,
            accounts: vec![account("a1", "alice"), account("b2", "bob")],
            detail: vec![],
        },
    );
    assert_eq!(store.stores[0].accounts.len(), 2);
    assert!(matches!(store.stores[0].storage_status, StorageStatus::Loaded));
    assert!(matches!(out.unwrap().event.event_type, SessionEventType::Refreshed));
}

#[test]
fn created_then_deleted_account_leaves_the_store_as_it_was() {
    let mut ports = ports_with(&["p"]);
    let (store, _) = login(SessionStore::new(), &mut ports, "work", false, None);
    let (store, _) = run(
        store,
        &mut ports,
        None,
        SessionAction::DataCreated { store_id: "work".to_string(), resource: Resource::Account, account: Some(account("a1", "alice")) },
    );
    assert_eq!(store.stores[0].accounts.len(), 1);
    let (store, out) = run(store, &mut ports, None, SessionAction::DataDeleted(Resource::Account, "a1".to_string(), vec![]));
    assert!(store.stores[0].accounts.is_empty());
    let b = out.unwrap();
    assert!(matches!(b.event.event_type, SessionEventType::Delete));
    assert!(matches!(&b.event.notification_target, NotificationTarget::Store { store_id } if store_id == "work"));
}

#[test]
fn deleting_an_unknown_account_tells_every_port() {
    let mut ports = ports_with(&["p", "q"]);
    let (_store, out) = run(SessionStore::new(), &mut ports, None, SessionAction::DataDeleted(Resource::Account, "zz".to_string(), vec![]));
    let b = out.unwrap();
    assert!(b.event.is_global);
    assert_eq!(b.recipients.len(), 2);
}

#[test]
fn edited_account_gets_the_updates_in_order() {
    let mut ports = ports_with(&["p"]);
    let (store, _) = login(SessionStore::new(), &mut ports, "work", false, None);
    let (store, _) = run(
        store,
        &mut ports,
        None,
        SessionAction::DataCreated { store_id: "work".to_string(), resource: Resource::Account, account: Some(account("a1", "alice")) },
    );
    let updates = vec![
        (DataFieldType::Username, "carol".to_string()),
        (DataFieldType::Note, "n1".to_string()),
        (DataFieldType::Note, "n2".to_string()),
        (DataFieldType::Path, "ignored".to_string()),
    ];
    let (store, out) = run(
        store,
        &mut ports,
        None,
        SessionAction::DataEdited { store_id: "work".to_string(), resource: Resource::Account, instance_id: "a1".to_string(), updates },
    );
    let acc = &store.stores[0].accounts[0];
    assert_eq!(acc.username, "carol");
    assert_eq!(acc.note.as_deref(), Some("n2"));
    assert_eq!(acc.path, None);
    let data = out.unwrap().event.data.unwrap();
    assert!(matches!(&data[0], (DataFieldType::ResourceID, JsonValue::String(s)) if s == "a1"));
}

#[test]
fn store_created_then_deleted_is_gone() {
    let mut ports = ports_with(&["p"]);
    ports.insert_port_id("ack1".to_string(), "p".to_string());
    ports.insert_port_id("ack2".to_string(), "p".to_string());
    let (store, out) = run(
        SessionStore::new(),
        &mut ports,
        None,
        SessionAction::StoreCreated { store_id: "s".to_string(), acknowledgement: Some("ack1".to_string()) },
    );
    assert_eq!(store.stores.len(), 1);
    assert!(matches!(&out.unwrap().event.event_type, SessionEventType::StoreCreated(_, id) if id == "s"));
    let (store, out) = run(
        store,
        &mut ports,
        None,
        SessionAction::StoreDeleted { store_id: "s".to_string(), acknowledgement: Some("ack2".to_string()) },
    );
    assert!(store.stores.is_empty());
    assert!(matches!(&out.unwrap().event.event_type, SessionEventType::StoreDeleted(_, id) if id == "s"));
    assert!(ports.take_port_id(&"ack1".to_string()).is_none());
}

#[test]
fn login_error_goes_to_the_asking_port_only() {
    let mut ports = ports_with(&["asker", "other"]);
    ports.insert_port_id("ack9".to_string(), "asker".to_string());
    let req = PendingRequest {
        kind: RequestKind::Login,
        store_id: Some("work".to_string()),
        prev_store_id: None,
        is_default: false,
        acknowledgement: Some("ack9".to_string()),
    };
    let (_store, out) = run(SessionStore::new(), &mut ports, None, SessionAction::LoginError(req));
    let b = out.unwrap();
    assert!(matches!(b.event.event_type, SessionEventType::LoginError));
    assert_eq!(b.recipients, vec!["asker".to_string()]);
    assert!(ports.take_port_id(&"ack9".to_string()).is_none());
}

#[test]
fn store_creation_failure_carries_the_response_detail() {
    let mut ports = ports_with(&["asker"]);
    ports.insert_port_id("ack3".to_string(), "asker".to_string());
    let req = PendingRequest {
        kind: RequestKind::CreateStore,
        store_id: Some("s".to_string()),
        prev_store_id: None,
        is_default: false,
        acknowledgement: Some("ack3".to_string()),
    };
    let resp = ResponseEnum::CreateResponse(CreateResponse {
        acknowledgement: None,
        detail: vec![(DataFieldType::ErrorMessage, JsonValue::String("boom".to_string()))],
        store_id: "s".to_string(),
        status: Status::Failure,
        resource: Resource::Store,
    });
    let (_store, out) = run(SessionStore::new(), &mut ports, None, SessionAction::StoreCreationFailed(req, resp));
    let b = out.unwrap();
    match &b.event.event_type {
        SessionEventType::StoreCreationFailed(d, id) => {
            assert_eq!(id, "s");
            assert_eq!(d.len(), 2);
        },
        _ => panic!("wrong event"),
    }
    assert_eq!(b.recipients, vec!["asker".to_string()]);
}

#[test]
fn init_started_and_quiet_actions_send_nothing() {
    let mut ports = ports_with(&["p"]);
    let (store, out) = run(SessionStore::new(), &mut ports, None, SessionAction::InitStarted(Some("a".to_string())));
    assert!(out.is_none());
    assert!(matches!(&store.status, StateStoreStatus::Loading(Some(a)) if a == "a"));
    let (store, out) = run(store, &mut ports, None, SessionAction::DataLoading("work".to_string(), None));
    assert!(out.is_none());
    let (_store, out) = run(store, &mut ports, None, SessionAction::LogoutError);
    assert!(out.is_none());
}
