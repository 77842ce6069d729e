use browser_rpass::content::{
    content_reaction, ContentScriptStore, DataAction as ContentData, LoginAction as ContentLogin,
};
use browser_rpass::json::{merge_json, to_json_text, JsonMap, JsonValue};
use browser_rpass::ranking::{accounts_for_domain, search_accounts, suggestions};
use browser_rpass::request::{DataFieldType, NotificationTarget, SessionEvent, SessionEventType};
use browser_rpass::text::{contains_ignoring_case, same_text};
use browser_rpass::types::{Account, Key, Resource};
use browser_rpass::util::{create_request_acknowledgement, string_filter, try_get_domain_name, get_domain_name};

fn obj(entries: Vec<(&str, JsonValue)>) -> JsonValue {
    JsonValue::Object(JsonMap { entries: entries.into_iter().map(|(k, v)| (k.to_string(), v)).collect() })
}

fn s(t: &str) -> JsonValue {
    JsonValue::String(t.to_string())
}

fn account(id: &str, username: &str, domain: Option<&str>) -> Account {
    Account::new(username.to_string(), id.to_string(), domain.map(|d| d.to_string()), None, None)
}

#[test]
fn string_filter_ignores_case() {
    let options = vec!["Apple", "banana", "PineAPPLE"];
    assert_eq!(string_filter(options.clone(), "apple"), vec!["Apple", "PineAPPLE"]);
    assert_eq!(string_filter(options.clone(), ""), vec!["Apple", "banana", "PineAPPLE"]);
    assert!(string_filter(options, "cherry").is_empty());
}

#[test]
fn acknowledgements_are_thirty_letters_or_digits() {
    let a = create_request_acknowledgement();
    let b = create_request_acknowledgement();
    assert_eq!(a.chars().count(), 30);
    assert!(a.chars().all(|c| c.is_ascii_alphanumeric()));
    assert_ne!(a, b);
}

#[test]
fn the_domain_of_an_address() {
    assert_eq!(try_get_domain_name(&"https://www.example.com/login?x=1".to_string()).as_deref(), Some("www.example.com"));
    assert_eq!(get_domain_name(&"http://Mail.Example.org:8080/".to_string()), "mail.example.org");
    assert!(try_get_domain_name(&"not a url".to_string()).is_none());
    assert!(try_get_domain_name(&"http://127.0.0.1/".to_string()).is_none());
}

#[test]
fn text_helpers() {
    assert!(contains_ignoring_case("Hello World", "WORLD"));
    assert!(!contains_ignoring_case("Hello", "world"));
    assert!(same_text("abc", "abc"));
    assert!(!same_text("abc", "abd"));
}

#[test]
fn json_text_is_compact_and_escaped() {
    let v = obj(vec![
        ("a", JsonValue::Array(vec![JsonValue::Null, JsonValue::Bool(true), JsonValue::Number("1.5".to_string())])),
        ("b\"", s("line\nbreak\t\u{1}")),
        ("c", obj(vec![])),
    ]);
    assert_eq!(to_json_text(&v), "{\"a\":[null,true,1.5],\"b\\\"\":\"line\\nbreak\\t\\u0001\",\"c\":{}}");
    assert_eq!(to_json_text(&s("back\\slash")), "\"back\\\\slash\"");
}

#[test]
fn merging_objects_merges_member_by_member() {
    let mut a = obj(vec![("x", s("1")), ("nested", obj(vec![("k", s("old")), ("keep", s("y"))]))]);
    let b = obj(vec![("nested", obj(vec![("k", s("new"))])), ("z", JsonValue::Bool(false))]);
    merge_json(&mut a, &b);
    assert_eq!(
        to_json_text(&a),
        "{\"x\":\"1\",\"nested\":{\"k\":\"new\",\"keep\":\"y\"},\"z\":false}"
    );
}

#[test]
fn merging_into_a_non_object_replaces_it() {
    let mut a = s("scalar");
    let b = obj(vec![("k", obj(vec![("deep", JsonValue::Null)]))]);
    merge_json(&mut a, &b);
    assert_eq!(to_json_text(&a), "{\"k\":{\"deep\":null}}");
    let mut c = obj(vec![("k", s("v"))]);
    merge_json(&mut c, &JsonValue::Bool(true));
    assert_eq!(to_json_text(&c), "true");
}

#[test]
fn json_member_lookups() {
    let v = obj(vec![("name", s("n")), ("inner", obj(vec![])), ("num", JsonValue::Number("3".to_string()))]);
    assert_eq!(v.get_string("name").unwrap(), Some("n"));
    assert_eq!(v.get_string("num").unwrap(), None);
    assert!(v.get_object("inner").unwrap().is_some());
    assert!(v.get_object("name").unwrap().is_none());
    assert_eq!(s("x").get_string("a").err().as_deref(), Some("Passed serde_json::Value is not of Object"));
}

#[test]
fn an_account_is_written_with_all_its_fields() {
    let a = Account::new("bob".to_string(), "id1".to_string(), Some("d.com".to_string()), Some("pw".to_string()), None);
    assert_eq!(
        to_json_text(&a.to_json()),
        "{\"username\":\"bob\",\"id\":\"id1\",\"domain\":\"d.com\",\"password\":\"pw\",\"path\":null,\"created_at\":null,\"updated_at\":null,\"note\":null}"
    );
    assert_eq!(a.get_password().as_deref(), Some("pw"));
}

fn key_detail() -> Vec<(DataFieldType, JsonValue)> {
    vec![
        (DataFieldType::KeyID, s("F1")),
        (DataFieldType::KeyUsername, s("Alice")),
        (DataFieldType::KeyHasSecret, JsonValue::Bool(true)),
        (DataFieldType::KeyUsable, JsonValue::Bool(true)),
        (DataFieldType::CanSign, JsonValue::Bool(true)),
        (DataFieldType::CanEncrypt, JsonValue::Bool(false)),
    ]
}

#[test]
fn a_key_is_read_from_its_detail_map() {
    let k = Key::from_detail(&key_detail()).unwrap();
    assert_eq!(k.id, "F1");
    assert_eq!(k.name.as_deref(), Some("Alice"));
    assert!(k.email.is_none());
    let mut missing = key_detail();
    missing.remove(2);
    assert!(Key::from_detail(&missing).is_none());
    let mut wrong = key_detail();
    wrong.push((DataFieldType::KeyUserID, JsonValue::Bool(false)));
    assert!(Key::from_detail(&wrong).is_none());
}

fn sample_accounts() -> Vec<Account> {
    vec![account("github.com/alice", "alice", None), account("gitlab.com/bob", "bob", None), account("zzz", "z", None)]
}

#[test]
fn suggestions_follow_the_fuzzy_score() {
    let all = suggestions(sample_accounts(), "");
    assert_eq!(all.len(), 3);
    let ranked = suggestions(sample_accounts(), "gl");
    let mut expected: Vec<(isize, String)> = sample_accounts()
        .iter()
        .filter_map(|a| sublime_fuzzy::best_match("gl", &a.id).map(|m| (m.score(), a.id.clone())))
        .collect();
    expected.sort_by_key(|p| p.0);
    let got: Vec<String> = ranked.iter().map(|a| a.id.clone()).collect();
    let want: Vec<String> = expected.into_iter().map(|p| p.1).collect();
    assert_eq!(got, want);
    assert!(!got.contains(&"zzz".to_string()));
}

fn listed_accounts() -> Vec<Account> {
    vec![
        account("1", "one", None),
        account("2", "two", Some("example.com")),
        account("3", "three", Some("other.org")),
    ]
}

#[test]
fn the_popup_lists_unmatched_accounts_last() {
    let accounts = listed_accounts();
    let listed = search_accounts(listed_accounts(), "", &Some("example.com".to_string()));
    let ids: Vec<&str> = listed.iter().map(|a| a.id.as_str()).collect();
    assert_eq!(ids, vec!["2", "1", "3"]);
    let searched = search_accounts(accounts, "thr", &None);
    assert_eq!(searched.len(), 1);
    assert_eq!(searched[0].id, "3");
}

fn page_accounts() -> Vec<Account> {
    vec![account("1", "a", Some("x.com")), account("2", "b", None), account("3", "c", Some("x.com"))]
}

#[test]
fn the_page_offers_the_accounts_of_its_domain() {
    let accounts = page_accounts();
    let on_page: Vec<String> = accounts_for_domain(page_accounts(), "x.com").iter().map(|a| a.id.clone()).collect();
    assert_eq!(on_page, vec!["1".to_string(), "3".to_string()]);
    let no_domain: Vec<String> = accounts_for_domain(accounts, "").iter().map(|a| a.id.clone()).collect();
    assert_eq!(no_domain, vec!["2".to_string()]);
}

#[test]
fn the_content_script_follows_login_and_logout() {
    let st = ContentScriptStore::new();
    let detail = vec![
        (DataFieldType::DefaultStoreID, s("work")),
        (DataFieldType::DefaultStoreAvailable, JsonValue::Bool(true)),
    ];
    let st = ContentData::Init(detail).apply(st);
    assert!(st.data.verified);
    assert_eq!(st.data.store_id.as_deref(), Some("work"));
    let st = ContentData::ResourceFetched(Resource::Account, vec![account("1", "a", None)]).apply(st);
    assert_eq!(st.data.accounts.len(), 1);
    let st = ContentLogin::Logout.apply(st);
    assert!(!st.data.verified);
    assert!(st.data.accounts.is_empty());
}

#[test]
fn the_content_script_reacts_to_events() {
    let e = SessionEvent {
        data: Some(vec![(DataFieldType::DefaultStoreID, s("w"))]),
        event_type: SessionEventType::Login,
        meta: None,
        resource: None,
        is_global: false,
        acknowledgement: None,
        store_id_index: None,
        notification_target: NotificationTarget::All,
    };
    let r = content_reaction(e, None, vec![]);
    assert!(matches!(r.login, Some(ContentLogin::Login(Some(_)))));
    let st = r.login.unwrap().apply(ContentScriptStore::new());
    assert!(st.data.verified);
    assert_eq!(st.data.store_id.as_deref(), Some("w"));
}

#[test]
fn json_object_members_change_in_place() {
    let mut v = obj(vec![("name", s("n")), ("inner", obj(vec![("a", s("1"))])), ("inner", obj(vec![]))]);
    {
        let inner = v.get_object_mut("inner").unwrap().unwrap();
        inner.entries.push(("b".to_string(), s("2")));
    }
    assert_eq!(to_json_text(&v), r#"{"name":"n","inner":{"a":"1","b":"2"},"inner":{}}"#);
    let read_back = v.get_object("inner").unwrap().unwrap();
    assert_eq!(read_back.get_string("b").unwrap(), Some("2"));
    assert!(v.get_object_mut("name").unwrap().is_none());
    assert!(v.get_object_mut("missing").unwrap().is_none());
    assert_eq!(s("x").get_object_mut("a").err().as_deref(), Some("Passed serde_json::Value is not of Object"));
    let mut m = JsonMap::new();
    assert!(m.get_object_mut("a").unwrap().is_none());
    assert_eq!(m.position("a"), None);
}

#[test]
fn a_key_written_as_a_detail_reads_back_the_same() {
    let mut k = Key::new("F1".to_string(), Some("Ann".to_string()), Some("ann@example.com".to_string()));
    k.has_secret = true;
    k.can_sign = true;
    let d = k.to_detail();
    assert_eq!(d.len(), 8);
    let r = Key::from_detail(&d).unwrap();
    assert_eq!(r.id, "F1");
    assert_eq!(r.name.as_deref(), Some("Ann"));
    assert_eq!(r.email.as_deref(), Some("ann@example.com"));
    assert!(r.has_secret && r.can_sign && !r.is_usable && !r.can_encrypt);
    let unnamed = Key::new("F2".to_string(), None, None);
    assert!(Key::from_detail(&unnamed.to_detail()).is_none());
}

#[test]
fn merging_the_same_patch_twice_changes_nothing_more() {
    let patch = || obj(vec![("a", s("1")), ("inner", obj(vec![("x", s("y"))])), ("n", JsonValue::Null)]);
    let mut a = obj(vec![("a", s("0")), ("inner", obj(vec![("z", s("w"))])), ("keep", s("k"))]);
    merge_json(&mut a, &patch());
    let once = to_json_text(&a);
    merge_json(&mut a, &patch());
    assert_eq!(to_json_text(&a), once);
    assert_eq!(once, r#"{"a":"1","inner":{"z":"w","x":"y"},"keep":"k","n":null}"#);
}

#[test]
fn without_search_or_path_every_account_is_listed_in_order() {
    let accounts = vec![
        account("b", "bob", Some("b.com")),
        account("a", "ann", None),
        account("c", "cid", Some("c.org")),
    ];
    let listed = search_accounts(accounts, "", &None);
    let ids: Vec<&str> = listed.iter().map(|a| a.id.as_str()).collect();
    assert_eq!(ids, vec!["b", "a", "c"]);
}
