use browser_rpass::json::{JsonMap, JsonValue};
use browser_rpass::popup::{
    popup_reaction, DataAction, LoginAction, LoginStatus, PopupAction, PopupPayload, PopupStore,
    StoreDataStatus,
};
use browser_rpass::request::{DataFieldType, NotificationTarget, SessionEvent, SessionEventType};
use browser_rpass::types::{Account, Resource};
use browser_rpass::widgets::{
    click_option, dropdown_filter, force_choice, key_option_name, key_options, proposed_store_name, selected_values,
    store_options, store_to_leave, BoolState, BoolStateAction, DropdownOption,
};
use browser_rpass::types::Key;

fn account(id: &str) -> Account {
    Account::new(format!("user-{}", id), id.to_string(), None, None, None)
}

fn event(event_type: SessionEventType, data: Option<Vec<(DataFieldType, JsonValue)>>) -> SessionEvent {
    SessionEvent {
        data,
        event_type,
        meta: None,
        resource: Some(vec![Resource::Account]),
        is_global: false,
        acknowledgement: None,
        store_id_index: None,
        notification_target: NotificationTarget::All,
    }
}

#[test]
fn dark_mode_toggled_twice_is_unchanged() {
    let s = PopupStore::new();
    let s = PopupAction::DarkModeToggle.apply(s);
    assert!(s.persistent_data.dark_mode);
    let s = PopupAction::DarkModeToggle.apply(s);
    assert!(!s.persistent_data.dark_mode);
}

#[test]
fn fetched_accounts_activate_the_named_store() {
    let s = PopupStore::new();
    let detail = vec![(DataFieldType::StoreID, JsonValue::String("work".to_string()))];
    let s = DataAction::ResourceFetched(Resource::Account, detail, vec![account("a"), account("b")]).apply(s);
    assert_eq!(s.data.accounts.len(), 2);
    assert_eq!(s.persistent_data.store_id.as_deref(), Some("work"));
    assert!(s.persistent_data.store_activated);
    assert!(matches!(s.data_status, StoreDataStatus::FetchSuccess));
    assert!(!s.page_loading);
}

#[test]
fn created_edited_and_deleted_accounts() {
    let s = PopupStore::new();
    let s = DataAction::ResourceCreated(Resource::Account, Some(account("a"))).apply(s);
    let s = DataAction::ResourceCreated(Resource::Account, Some(account("b"))).apply(s);
    assert_eq!(s.data.accounts.len(), 2);
    let mut edited = account("a");
    edited.username = "renamed".to_string();
    let s = DataAction::ResourceEdited(Resource::Account, Some(edited), "a".to_string()).apply(s);
    assert_eq!(s.data.accounts[0].username, "renamed");
    let deleted = vec![(
        DataFieldType::Data,
        JsonValue::Object(JsonMap { entries: vec![("id".to_string(), JsonValue::String("a".to_string()))] }),
    )];
    let s = DataAction::ResourceDeleted(Resource::Account, deleted).apply(s);
    assert_eq!(s.data.accounts.len(), 1);
    assert_eq!(s.data.accounts[0].id, "b");
    assert!(matches!(s.data_status, StoreDataStatus::DeletionSuccess));
}

#[test]
fn init_keeps_the_non_empty_store_ids() {
    let detail = vec![(
        DataFieldType::StoreIDList,
        JsonValue::Array(vec![
            JsonValue::String("a".to_string()),
            JsonValue::String(String::new()),
            JsonValue::Bool(true),
            JsonValue::String("b".to_string()),
        ]),
    )];
    let s = DataAction::Init(detail, vec![]).apply(PopupStore::new());
    assert_eq!(s.store_ids, vec!["a".to_string(), "b".to_string()]);
}

#[test]
fn deleting_the_current_store_leaves_it() {
    let s = DataAction::StoreIdSet("work".to_string()).apply(PopupStore::new());
    let s = DataAction::StoreCreated(vec![], "work".to_string()).apply(s);
    let s = DataAction::StoreCreated(vec![], "home".to_string()).apply(s);
    let s = DataAction::ResourceCreated(Resource::Account, Some(account("a"))).apply(s);
    let s = DataAction::StoreDeleted(vec![], "work".to_string()).apply(s);
    assert_eq!(s.store_ids, vec!["home".to_string()]);
    assert!(s.persistent_data.store_id.is_none());
    assert!(s.data.accounts.is_empty());
}

#[test]
fn logout_keeps_the_store_only_when_remembered() {
    let s = DataAction::StoreIdSet("work".to_string()).apply(PopupStore::new());
    let forgotten = LoginAction::LogoutSucceeded(vec![]).apply(s);
    assert!(forgotten.persistent_data.store_id.is_none());
    let s = DataAction::StoreIdSet("work".to_string()).apply(PopupStore::new());
    let s = LoginAction::RememberMe(true).apply(s);
    let kept = LoginAction::LogoutSucceeded(vec![]).apply(s);
    assert_eq!(kept.persistent_data.store_id.as_deref(), Some("work"));
    assert!(matches!(kept.login_status, LoginStatus::LogoutSuccess));
}

#[test]
fn logout_of_another_store_changes_nothing() {
    let s = DataAction::StoreIdSet("work".to_string()).apply(PopupStore::new());
    let s = LoginAction::Logout("home".to_string(), vec![]).apply(s);
    assert_eq!(s.persistent_data.store_id.as_deref(), Some("work"));
    assert!(matches!(s.login_status, LoginStatus::Idle));
}

#[test]
fn login_started_then_login_activates_the_store() {
    let s = LoginAction::LoginStarted("work".to_string(), vec![]).apply(PopupStore::new());
    assert!(s.page_loading);
    let detail = vec![(DataFieldType::IsDefault, JsonValue::Bool(true))];
    let s = LoginAction::Login("work".to_string(), detail).apply(s);
    assert!(s.persistent_data.store_activated);
    assert_eq!(s.default_store_id.as_deref(), Some("work"));
    assert!(matches!(s.login_status, LoginStatus::LoggedIn));
}

#[test]
fn a_login_event_for_the_awaited_store_fetches_its_accounts() {
    let s = LoginAction::LoginStarted("work".to_string(), vec![]).apply(PopupStore::new());
    let e = event(SessionEventType::Login, Some(vec![(DataFieldType::StoreID, JsonValue::String("work".to_string()))]));
    let r = popup_reaction(&s, e, None, PopupPayload { account: None, accounts: vec![], keys: vec![] });
    assert!(matches!(r.login, Some(LoginAction::LoginSucceeded(_))));
    assert_eq!(r.fetch.as_deref(), Some("work"));
    let e = event(SessionEventType::Login, Some(vec![(DataFieldType::StoreID, JsonValue::String("home".to_string()))]));
    let r = popup_reaction(&s, e, None, PopupPayload { account: None, accounts: vec![], keys: vec![] });
    assert!(r.login.is_none() && r.data.is_none() && r.fetch.is_none());
}

#[test]
fn an_update_event_names_the_account_in_its_meta() {
    let s = PopupStore::new();
    let mut e = event(SessionEventType::Update, None);
    e.meta = Some(JsonValue::Object(JsonMap { entries: vec![("id".to_string(), JsonValue::String("a".to_string()))] }));
    let r = popup_reaction(&s, e, None, PopupPayload { account: Some(account("a")), accounts: vec![], keys: vec![] });
    assert!(matches!(r.data, Some(DataAction::ResourceEdited(Resource::Account, Some(_), ref id)) if id == "a"));
}

#[test]
fn options_are_filtered_ignoring_case() {
    let mut chosen = DropdownOption::new("Work Store".to_string(), "work".to_string());
    chosen.selected = true;
    let options = vec![chosen, DropdownOption::new("home".to_string(), "home".to_string())];
    let all = dropdown_filter("WOR", &options, true);
    assert_eq!(all.len(), 1);
    assert_eq!(all[0].value, "work");
    let unchosen = dropdown_filter("wor", &options, false);
    assert!(unchosen.is_empty());
    assert_eq!(dropdown_filter("", &options, true).len(), 2);
    assert_eq!(selected_values(&options), vec!["work".to_string()]);
}

#[test]
fn keys_are_shown_with_name_mail_and_id() {
    let mut k = Key::new("ABCD".to_string(), Some("Alice".to_string()), Some("a@x.org".to_string()));
    assert_eq!(key_option_name(&k), "Alice <a@x.org> <ABCD>");
    let plain = Key::new("EF".to_string(), None, None);
    assert_eq!(key_option_name(&plain), " <> <EF>");
    k.has_secret = true;
    let opts = key_options(&vec![k, plain], true);
    assert_eq!(opts.len(), 1);
    assert_eq!(opts[0].value, "ABCD");
}

#[test]
fn the_current_store_is_chosen_and_left_when_switching() {
    let ids = vec!["a".to_string(), "b".to_string()];
    let opts = store_options(&ids, &Some("b".to_string()));
    assert!(!opts[0].selected && opts[1].selected);
    assert_eq!(store_to_leave(&Some("a".to_string()), &"b".to_string()).as_deref(), Some("a"));
    assert!(store_to_leave(&Some("b".to_string()), &"b".to_string()).is_none());
    assert!(store_to_leave(&None, &"b".to_string()).is_none());
    assert_eq!(proposed_store_name(&vec![]), "default");
    assert_eq!(proposed_store_name(&ids), "");
}

#[test]
fn a_flag_toggles_and_sets() {
    let f = BoolState::new(false);
    assert!(f.reduce(BoolStateAction::ToggleAction).value);
    assert!(!f.reduce(BoolStateAction::ToggleAction).reduce(BoolStateAction::ToggleAction).value);
    assert!(!f.reduce(BoolStateAction::SetAction(false)).value);
}

fn three_options() -> Vec<DropdownOption> {
    vec![
        DropdownOption::new("work".to_string(), "w".to_string()),
        DropdownOption::new("home".to_string(), "h".to_string()),
        DropdownOption::new("home".to_string(), "h2".to_string()),
    ]
}

#[test]
fn typing_an_option_name_chooses_the_first_with_that_name() {
    let mut options = three_options();
    let changed = force_choice(&mut options, &"home".to_string(), true);
    assert_eq!(changed, vec![1]);
    assert!(options[1].selected && !options[0].selected && !options[2].selected);
    let again = force_choice(&mut options, &"home".to_string(), true);
    assert!(again.is_empty());
    assert!(force_choice(&mut options, &"none".to_string(), true).is_empty());
}

#[test]
fn typing_a_value_with_one_choice_chooses_exactly_the_matching_options() {
    let mut options = three_options();
    options[0].selected = true;
    let changed = force_choice(&mut options, &"h2".to_string(), false);
    assert_eq!(changed, vec![0, 2]);
    assert!(!options[0].selected && !options[1].selected && options[2].selected);
    assert!(force_choice(&mut options, &"h2".to_string(), false).is_empty());
    assert!(!options[0].selected && !options[1].selected && options[2].selected);
}

#[test]
fn clicking_an_option_flips_it() {
    let mut options = three_options();
    let (text, open) = click_option(&mut options, 1, false);
    assert_eq!(text, "home");
    assert!(!open);
    assert!(options[1].selected);
    let (text, open) = click_option(&mut options, 1, true);
    assert_eq!(text, "");
    assert!(open);
    assert!(!options[1].selected);
}
