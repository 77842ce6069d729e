use browser_rpass::json::JsonValue;
use browser_rpass::request::{DataFieldType, RequestEnum, RequestEnumTrait};
use browser_rpass::response::{LogoutResponse, ResponseEnum, Status};
use browser_rpass::types::{Account, Key, Resource};

#[test]
fn builders_keep_what_they_are_given() {
    let get = RequestEnum::create_get_request("e1".to_string(), Resource::Account, Some("a1".to_string()), None, Some("s".to_string()));
    assert_eq!(get.get_acknowledgement().as_deref(), Some("a1"));
    assert_eq!(get.get_store_id().as_deref(), Some("s"));
    assert_eq!(get.get_type(), "get");
    let del = RequestEnum::create_delete_request("e1".to_string(), Resource::Account, None, None, None);
    assert_eq!(del.get_acknowledgement().map(|a| a.len()), Some(30));
    let create = RequestEnum::create_create_request(
        Some("s".to_string()),
        Some("u".to_string()),
        Some("d.com".to_string()),
        None,
        None,
        Resource::Account,
        Some("pw".to_string()),
        Some("a2".to_string()),
        None,
    );
    assert!(matches!(&create, RequestEnum::Create(c) if c.password.as_deref() == Some("pw")));
    let search = RequestEnum::create_search_request(Some("q".to_string()), Resource::Account, Some("a3".to_string()), None, None);
    assert_eq!(search.get_type(), "search");
    let edit = RequestEnum::create_edit_request(
        "e1".to_string(),
        Resource::Account,
        None,
        vec![(DataFieldType::Note, JsonValue::String("n".to_string()))],
        Some("a4".to_string()),
        None,
        Some("s".to_string()),
    );
    assert!(matches!(&edit, RequestEnum::Edit(e) if e.value.len() == 1));
    let store = RequestEnum::create_create_store_request(
        Some("parent".to_string()),
        "child".to_string(),
        vec!["K".to_string()],
        None,
        true,
        None,
        Some("a5".to_string()),
        None,
    );
    match &store {
        RequestEnum::CreateStore(c) => {
            assert_eq!(c.get_store_name(), "child");
            assert_eq!(c.get_store_dir().as_deref(), Some("parent"));
            assert_eq!(c.get_store_path().as_deref(), Some("parent"));
        },
        _ => panic!("expected a store creation"),
    }
    let del_store = RequestEnum::create_delete_store_request("s".to_string(), true, Some("a6".to_string()), None);
    assert_eq!(del_store.get_type(), "delete_store");
}

#[test]
fn a_header_and_an_acknowledgement_can_be_replaced() {
    let mut r = RequestEnum::create_login_request(None, Some("s".to_string()), None, false);
    r.set_acknowledgement("fixed".to_string());
    r.set_header(vec![("k".to_string(), "v".to_string())]);
    assert_eq!(r.get_acknowledgement().as_deref(), Some("fixed"));
    assert_eq!(r.get_header().map(|h| h.len()), Some(1));
}

#[test]
fn response_kinds_and_small_helpers() {
    let r = ResponseEnum::LogoutResponse(LogoutResponse { store_id: None, acknowledgement: None, detail: vec![], status: Status::Success });
    assert_eq!(r.kind_name(), "logout_response");
    let mut a = Account::new("u".to_string(), "i".to_string(), None, None, None);
    a.set_password(Some("secret".to_string()));
    assert_eq!(a.get_password().as_deref(), Some("secret"));
    let k = Key::new("FP".to_string(), None, None);
    assert_eq!(k.id_string(), "FP");
    assert!(matches!(browser_rpass::json::json_string("x".to_string()), JsonValue::String(s) if s == "x"));
    assert_eq!(DataFieldType::StoreIDList.name(), "store_i_d_list");
}
