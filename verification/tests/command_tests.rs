use browser_rpass::commands::{
    create_account, create_store, delete_resource, delete_store, edit_account, fetch_accounts, login, logout,
};
use browser_rpass::content;
use browser_rpass::json::to_json_text;
use browser_rpass::popup::{DataAction, LoginAction};
use browser_rpass::request::{Detail, RequestEnum};
use browser_rpass::types::Resource;

fn is_fresh(ack: &Option<String>) -> bool {
    match ack {
        Some(a) => a.len() == 30 && a.chars().all(|c| c.is_ascii_alphanumeric()),
        None => false,
    }
}

fn entries(d: &Detail) -> Vec<(String, String)> {
    d.iter().map(|(k, v)| (k.name().to_string(), to_json_text(v))).collect()
}

fn pairs(v: &[(&str, &str)]) -> Vec<(String, String)> {
    v.iter().map(|(a, b)| (a.to_string(), b.to_string())).collect()
}

#[test]
fn fetching_accounts_marks_the_fetch_started() {
    let c = fetch_accounts(Some("work".to_string()));
    match &c.request {
        RequestEnum::Fetch(r) => {
            assert_eq!(r.store_id.as_deref(), Some("work"));
            assert!(r.path.is_none());
            assert!(matches!(r.resource, Resource::Account));
            assert!(is_fresh(&r.acknowledgement));
            assert!(r.header.is_none());
        },
        _ => panic!("not a fetch request"),
    }
    assert!(matches!(c.data, Some(DataAction::ResourceFetchStarted(Resource::Account))));
    assert!(c.login.is_none() && c.context_store.is_none());
}

#[test]
fn logging_in_remembers_the_store() {
    let c = login("work".to_string(), true, Some("home".to_string()));
    match &c.request {
        RequestEnum::Login(r) => {
            assert_eq!(r.store_id.as_deref(), Some("work"));
            assert_eq!(r.prev_store_id.as_deref(), Some("home"));
            assert!(r.is_default);
            assert!(is_fresh(&r.acknowledgement));
        },
        _ => panic!("not a login request"),
    }
    match &c.login {
        Some(LoginAction::LoginStarted(s, d)) => assert!(s == "work" && d.is_empty()),
        _ => panic!("login not started"),
    }
    assert_eq!(c.context_store.as_deref(), Some("work"));
}

#[test]
fn logging_out_starts_the_logout() {
    let c = logout(None);
    match &c.request {
        RequestEnum::Logout(r) => assert!(r.store_id.is_none() && r.user_id.is_none() && is_fresh(&r.acknowledgement)),
        _ => panic!("not a logout request"),
    }
    assert!(matches!(c.login, Some(LoginAction::LogoutStarted(_))));
}

#[test]
fn deleting_a_store_carries_the_request_in_the_action() {
    let c = delete_store("old".to_string(), true);
    let ack = match &c.request {
        RequestEnum::DeleteStore(r) => {
            assert!(r.store_id == "old" && r.force);
            assert!(is_fresh(&r.acknowledgement));
            r.acknowledgement.clone()
        },
        _ => panic!("not a store deletion"),
    };
    match &c.data {
        Some(DataAction::StoreDeletionStarted(Some(RequestEnum::DeleteStore(q)), s)) => {
            assert!(s == "old" && q.store_id == "old" && q.force && q.acknowledgement == ack);
        },
        _ => panic!("deletion not started"),
    }
    assert_eq!(c.context_store.as_deref(), Some("old"));
}

#[test]
fn creating_an_account_records_its_fields() {
    let c = create_account(
        "work".to_string(),
        Some("example.com".to_string()),
        Some("me".to_string()),
        Some("pw".to_string()),
        Some("n".to_string()),
    );
    match &c.request {
        RequestEnum::Create(r) => {
            assert_eq!(r.store_id.as_deref(), Some("work"));
            assert_eq!(r.username.as_deref(), Some("me"));
            assert_eq!(r.password.as_deref(), Some("pw"));
            assert_eq!(r.domain.as_deref(), Some("example.com"));
            assert_eq!(r.note.as_deref(), Some("n"));
            assert!(r.custom_fields.is_none() && is_fresh(&r.acknowledgement));
        },
        _ => panic!("not a creation"),
    }
    match &c.data {
        Some(DataAction::ResourceCreationStarted(Resource::Account, d)) => assert_eq!(
            entries(d),
            pairs(&[("username", "\"me\""), ("password", "\"pw\""), ("domain", "\"example.com\""), ("note", "\"n\"")])
        ),
        _ => panic!("creation not started"),
    }
}

#[test]
fn editing_an_account_sends_every_field_and_records_the_given_ones() {
    let c = edit_account("id1".to_string(), None, Some("me".to_string()), None, Some("n".to_string()), Some("work".to_string()));
    match &c.request {
        RequestEnum::Edit(r) => {
            assert_eq!(r.id, "id1");
            assert!(r.domain.is_none());
            assert_eq!(r.store_id.as_deref(), Some("work"));
            assert_eq!(
                entries(&r.value),
                pairs(&[
                    ("username", "\"me\""),
                    ("password", "null"),
                    ("domain", "null"),
                    ("note", "\"n\""),
                    ("resource_i_d", "\"id1\""),
                ])
            );
            assert!(is_fresh(&r.acknowledgement));
        },
        _ => panic!("not an edit"),
    }
    match &c.data {
        Some(DataAction::ResourceEditionStarted(Resource::Account, d)) => {
            assert_eq!(entries(d), pairs(&[("resource_i_d", "\"id1\""), ("username", "\"me\""), ("note", "\"n\"")]))
        },
        _ => panic!("edit not started"),
    }
}

#[test]
fn deleting_a_resource_records_its_id() {
    let c = delete_resource("id2".to_string(), Resource::Account, None);
    match &c.request {
        RequestEnum::Delete(r) => assert!(r.id == "id2" && matches!(r.resource, Resource::Account) && is_fresh(&r.acknowledgement)),
        _ => panic!("not a deletion"),
    }
    match &c.data {
        Some(DataAction::ResourceDeletionStarted(Resource::Account, d)) => assert_eq!(entries(d), pairs(&[("resource_i_d", "\"id2\"")])),
        _ => panic!("deletion not started"),
    }
}

#[test]
fn creating_a_store_carries_the_request_and_its_acknowledgement() {
    let c = create_store(
        "team".to_string(),
        Some("work".to_string()),
        vec!["K1".to_string(), "K2".to_string()],
        vec!["K1".to_string()],
        true,
        Some("K1".to_string()),
    );
    let ack = match &c.request {
        RequestEnum::CreateStore(r) => {
            assert_eq!(r.store_name, "team");
            assert_eq!(r.parent_store.as_deref(), Some("work"));
            assert_eq!(r.encryption_keys, vec!["K1".to_string(), "K2".to_string()]);
            assert_eq!(r.valid_signing_keys, Some(vec!["K1".to_string()]));
            assert!(r.is_repo);
            assert!(is_fresh(&r.acknowledgement));
            r.acknowledgement.clone().unwrap()
        },
        _ => panic!("not a store creation"),
    };
    match &c.data {
        Some(DataAction::StoreCreationStarted(Some(RequestEnum::CreateStore(q)), a)) => {
            assert_eq!(*a, ack);
            assert_eq!(q.store_name, "team");
            assert_eq!(q.encryption_keys.len(), 2);
            assert_eq!(q.acknowledgement.as_deref(), Some(ack.as_str()));
        },
        _ => panic!("creation not started"),
    }
}

#[test]
fn the_page_fetches_accounts_of_a_path() {
    let (request, action) = content::fetch_accounts(None, Some("web/mail".to_string()));
    match &request {
        RequestEnum::Fetch(r) => assert!(r.store_id.is_none() && r.path.as_deref() == Some("web/mail") && is_fresh(&r.acknowledgement)),
        _ => panic!("not a fetch"),
    }
    assert!(matches!(action, content::DataAction::ResourceFetchStarted(Resource::Account)));
}
