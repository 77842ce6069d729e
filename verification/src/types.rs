//! The records that a password store holds and the load states of the stores.
use vstd::prelude::*;
use crate::json::{json_model_entries, push_entry, JsonMap, JsonModel, JsonValue};
use crate::request::{detail_lookup, detail_model, detail_position, field_name, DataFieldType, Detail};

verus! {

/// A saved account: the login of a user on a site.
#[derive(Debug)]
pub struct Account {
    pub username: String,
    pub id: String,
    pub domain: Option<String>,
    pub password: Option<String>,
    pub path: Option<String>,
    /// Creation time, as RFC 3339 text.
    pub created_at: Option<String>,
    /// Time of the last update, as RFC 3339 text.
    pub updated_at: Option<String>,
    pub note: Option<String>,
    pub custom_fields: Option<Vec<(String, JsonValue)>>,
}

impl Account {
    /// The password that the account holds.
    pub open spec fn spec_password(&self) -> Option<String> {
        self.password
    }

    /// An account with the given fields.
    pub fn new(
        username: String,
        id: String,
        domain: Option<String>,
        password: Option<String>,
        note: Option<String>,
    ) -> (res: Account)
        ensures
            res.username == username,
            res.id == id,
            res.domain == domain,
            res.spec_password() == password,
            res.note == note,
            res.path is None,
            res.created_at is None,
            res.updated_at is None,
            res.custom_fields is None,
    {
        Account {
            username,
            id,
            domain,
            password,
            path: None,
            created_at: None,
            updated_at: None,
            note,
            custom_fields: None,
        }
    }

    /// A copy of the password, when the account has one.
    pub fn get_password(&self) -> (res: Option<String>)
        ensures
            res == self.spec_password(),
    {
        match &self.password {
            Some(p) => Some(p.clone()),
            None => None,
        }
    }

    /// Replaces the password.
    pub fn set_password(&mut self, password: Option<String>)
        ensures
            final(self).spec_password() == password,
            final(self).username == old(self).username,
            final(self).id == old(self).id,
            final(self).domain == old(self).domain,
            final(self).path == old(self).path,
            final(self).created_at == old(self).created_at,
            final(self).updated_at == old(self).updated_at,
            final(self).note == old(self).note,
            final(self).custom_fields == old(self).custom_fields,
    {
        self.password = password;
    }
}

/// The kinds of resource a request can be about.
#[derive(Clone, Debug, PartialEq, Eq, Structural)]
pub enum Resource {
    Password,
    Username,
    Account,
    Auth,
    Store,
}

/// The name a resource is written with in messages.
pub open spec fn resource_name(r: Resource) -> Seq<char> {
    match r {
        Resource::Password => "password"@,
        Resource::Username => "username"@,
        Resource::Account => "account"@,
        Resource::Auth => "auth"@,
        Resource::Store => "store"@,
    }
}

impl Resource {
    /// A copy of the resource.
    pub fn copy(&self) -> (res: Resource)
        ensures
            res == *self,
    {
        match self {
            Resource::Password => Resource::Password,
            Resource::Username => Resource::Username,
            Resource::Account => Resource::Account,
            Resource::Auth => Resource::Auth,
            Resource::Store => Resource::Store,
        }
    }

    /// The name the resource is written with in messages.
    pub fn name(&self) -> (res: &'static str)
        ensures
            res@ == resource_name(*self),
    {
        match self {
            Resource::Password => "password",
            Resource::Username => "username",
            Resource::Account => "account",
            Resource::Auth => "auth",
            Resource::Store => "store",
        }
    }
}

/// The load state of the accounts of one store.
#[derive(Clone, Debug)]
pub enum StorageStatus {
    Uninitialized,
    Loaded,
    /// Loading, for the request with the given acknowledgement.
    Loading(Option<String>),
    Error,
}

/// The load state of the whole session store.
#[derive(Clone, Debug)]
pub enum StateStoreStatus {
    Uninitialized,
    Loaded,
    /// Loading, for the request with the given acknowledgement.
    Loading(Option<String>),
    Error,
    Idle,
}

/// A key of the user's keyring, as the native host reports it.
#[derive(Clone, Debug)]
pub struct Key {
    pub id: String,
    pub name: Option<String>,
    pub email: Option<String>,
    pub has_secret: bool,
    pub is_usable: bool,
    pub can_sign: bool,
    pub can_encrypt: bool,
}

impl Key {
    /// A key with the given identity and no capabilities.
    pub fn new(id: String, name: Option<String>, email: Option<String>) -> (res: Key)
        ensures
            res == (Key {
                id,
                name,
                email,
                has_secret: false,
                is_usable: false,
                can_sign: false,
                can_encrypt: false,
            }),
    {
        Key {
            id,
            name,
            email,
            has_secret: false,
            is_usable: false,
            can_sign: false,
            can_encrypt: false,
        }
    }

    /// The key's identifier: what a `String` made from a key holds.
    pub fn id_string(&self) -> (res: String)
        ensures
            res == self.id,
    {
        self.id.clone()
    }

    /// A copy of the key.
    pub fn copy(&self) -> (res: Key)
        ensures
            res == *self,
    {
        Key {
            id: self.id.clone(),
            name: self.name.clone(),
            email: self.email.clone(),
            has_secret: self.has_secret,
            is_usable: self.is_usable,
            can_sign: self.can_sign,
            can_encrypt: self.can_encrypt,
        }
    }
}

/// A JSON string for a present text, `null` for an absent one.
pub open spec fn opt_text_json(s: Option<String>) -> JsonModel {
    match s {
        Some(t) => JsonModel::String(t@),
        None => JsonModel::Null,
    }
}

/// The members that an account's extra fields add to its JSON object.
pub open spec fn custom_fields_json(c: Option<Vec<(String, JsonValue)>>) -> Seq<(Seq<char>, JsonModel)> {
    match c {
        Some(v) => json_model_entries(v@),
        None => Seq::empty(),
    }
}

/// The JSON object an account is written as: its fields in declaration order, absent
/// ones as `null`, then its extra fields at the same level.
pub open spec fn account_json(a: Account) -> JsonModel {
    JsonModel::Object(
        seq![
            ("username"@, JsonModel::String(a.username@)),
            ("id"@, JsonModel::String(a.id@)),
            ("domain"@, opt_text_json(a.domain)),
            ("password"@, opt_text_json(a.password)),
            ("path"@, opt_text_json(a.path)),
            ("created_at"@, opt_text_json(a.created_at)),
            ("updated_at"@, opt_text_json(a.updated_at)),
            ("note"@, opt_text_json(a.note)),
        ] + custom_fields_json(a.custom_fields),
    )
}

/// A JSON string for a present text, `null` for an absent one.
pub fn opt_text_to_json(s: &Option<String>) -> (res: JsonValue)
    ensures
        res@ == opt_text_json(*s),
{
    match s {
        Some(t) => JsonValue::String(t.clone()),
        None => JsonValue::Null,
    }
}

impl Account {
    /// The JSON object the account is written as.
    pub fn to_json(&self) -> (res: JsonValue)
        ensures
            res@ == account_json(*self),
    {
        let mut entries: Vec<(String, JsonValue)> = Vec::new();
        push_entry(&mut entries, "username".to_string(), JsonValue::String(self.username.clone()));
        push_entry(&mut entries, "id".to_string(), JsonValue::String(self.id.clone()));
        push_entry(&mut entries, "domain".to_string(), opt_text_to_json(&self.domain));
        push_entry(&mut entries, "password".to_string(), opt_text_to_json(&self.password));
        push_entry(&mut entries, "path".to_string(), opt_text_to_json(&self.path));
        push_entry(&mut entries, "created_at".to_string(), opt_text_to_json(&self.created_at));
        push_entry(&mut entries, "updated_at".to_string(), opt_text_to_json(&self.updated_at));
        push_entry(&mut entries, "note".to_string(), opt_text_to_json(&self.note));
        let ghost fixed = entries@;
        assert(json_model_entries(fixed) =~= seq![
            ("username"@, JsonModel::String(self.username@)),
            ("id"@, JsonModel::String(self.id@)),
            ("domain"@, opt_text_json(self.domain)),
            ("password"@, opt_text_json(self.password)),
            ("path"@, opt_text_json(self.path)),
            ("created_at"@, opt_text_json(self.created_at)),
            ("updated_at"@, opt_text_json(self.updated_at)),
            ("note"@, opt_text_json(self.note)),
        ]);
        if let Some(custom) = &self.custom_fields {
            let mut i: usize = 0;
            while i < custom.len()
                invariant
                    i <= custom@.len(),
                    entries@.len() == fixed.len() + i,
                    json_model_entries(entries@) == json_model_entries(fixed) + json_model_entries(
                        custom@.take(i as int),
                    ),
                decreases custom@.len() - i,
            {
                let (k, v) = &custom[i];
                push_entry(&mut entries, k.clone(), v.copy());
                i = i + 1;
                assert(custom@.take(i as int).drop_last() =~= custom@.take(i - 1));
                assert(json_model_entries(entries@) =~= json_model_entries(fixed) + json_model_entries(
                    custom@.take(i as int),
                ));
            }
            assert(custom@.take(custom@.len() as int) =~= custom@);
        } else {
            assert(json_model_entries(fixed) + custom_fields_json(self.custom_fields) =~= json_model_entries(fixed));
        }
        JsonValue::Object(JsonMap { entries })
    }
}

/// The JSON object a key is written as in the session state: its fields in declaration
/// order.
pub open spec fn key_state_json(k: Key) -> JsonModel {
    JsonModel::Object(
        seq![
            ("id"@, JsonModel::String(k.id@)),
            ("name"@, opt_text_json(k.name)),
            ("email"@, opt_text_json(k.email)),
            ("has_secret"@, JsonModel::Bool(k.has_secret)),
            ("is_usable"@, JsonModel::Bool(k.is_usable)),
            ("can_sign"@, JsonModel::Bool(k.can_sign)),
            ("can_encrypt"@, JsonModel::Bool(k.can_encrypt)),
        ],
    )
}

/// The JSON object a key is reported as by the native host: its fingerprint under both
/// `KeyFingerprint` and `KeyID`, and its other fields under their detail keys, with the
/// members ordered by name.
pub open spec fn key_report_json(k: Key) -> JsonModel {
    JsonModel::Object(
        seq![
            (field_name(DataFieldType::CanEncrypt), JsonModel::Bool(k.can_encrypt)),
            (field_name(DataFieldType::CanSign), JsonModel::Bool(k.can_sign)),
            (field_name(DataFieldType::KeyFingerprint), JsonModel::String(k.id@)),
            (field_name(DataFieldType::KeyHasSecret), JsonModel::Bool(k.has_secret)),
            (field_name(DataFieldType::KeyID), JsonModel::String(k.id@)),
            (field_name(DataFieldType::KeyUsable), JsonModel::Bool(k.is_usable)),
            (field_name(DataFieldType::KeyUserID), opt_text_json(k.email)),
            (field_name(DataFieldType::KeyUsername), opt_text_json(k.name)),
        ],
    )
}

impl Key {
    /// The JSON object the key is written as in the session state.
    pub fn to_state_json(&self) -> (res: JsonValue)
        ensures
            res@ == key_state_json(*self),
    {
        let mut entries: Vec<(String, JsonValue)> = Vec::new();
        push_entry(&mut entries, "id".to_string(), JsonValue::String(self.id.clone()));
        push_entry(&mut entries, "name".to_string(), opt_text_to_json(&self.name));
        push_entry(&mut entries, "email".to_string(), opt_text_to_json(&self.email));
        push_entry(&mut entries, "has_secret".to_string(), JsonValue::Bool(self.has_secret));
        push_entry(&mut entries, "is_usable".to_string(), JsonValue::Bool(self.is_usable));
        push_entry(&mut entries, "can_sign".to_string(), JsonValue::Bool(self.can_sign));
        push_entry(&mut entries, "can_encrypt".to_string(), JsonValue::Bool(self.can_encrypt));
        assert(json_model_entries(entries@) =~= seq![
            ("id"@, JsonModel::String(self.id@)),
            ("name"@, opt_text_json(self.name)),
            ("email"@, opt_text_json(self.email)),
            ("has_secret"@, JsonModel::Bool(self.has_secret)),
            ("is_usable"@, JsonModel::Bool(self.is_usable)),
            ("can_sign"@, JsonModel::Bool(self.can_sign)),
            ("can_encrypt"@, JsonModel::Bool(self.can_encrypt)),
        ]);
        JsonValue::Object(JsonMap { entries })
    }

    /// The JSON object the key is reported as by the native host.
    pub fn to_json(&self) -> (res: JsonValue)
        ensures
            res@ == key_report_json(*self),
    {
        let mut entries: Vec<(String, JsonValue)> = Vec::new();
        push_entry(&mut entries, DataFieldType::CanEncrypt.name().to_string(), JsonValue::Bool(self.can_encrypt));
        push_entry(&mut entries, DataFieldType::CanSign.name().to_string(), JsonValue::Bool(self.can_sign));
        push_entry(&mut entries, DataFieldType::KeyFingerprint.name().to_string(), JsonValue::String(self.id.clone()));
        push_entry(&mut entries, DataFieldType::KeyHasSecret.name().to_string(), JsonValue::Bool(self.has_secret));
        push_entry(&mut entries, DataFieldType::KeyID.name().to_string(), JsonValue::String(self.id.clone()));
        push_entry(&mut entries, DataFieldType::KeyUsable.name().to_string(), JsonValue::Bool(self.is_usable));
        push_entry(&mut entries, DataFieldType::KeyUserID.name().to_string(), opt_text_to_json(&self.email));
        push_entry(&mut entries, DataFieldType::KeyUsername.name().to_string(), opt_text_to_json(&self.name));
        assert(json_model_entries(entries@) =~= seq![
            (field_name(DataFieldType::CanEncrypt), JsonModel::Bool(self.can_encrypt)),
            (field_name(DataFieldType::CanSign), JsonModel::Bool(self.can_sign)),
            (field_name(DataFieldType::KeyFingerprint), JsonModel::String(self.id@)),
            (field_name(DataFieldType::KeyHasSecret), JsonModel::Bool(self.has_secret)),
            (field_name(DataFieldType::KeyID), JsonModel::String(self.id@)),
            (field_name(DataFieldType::KeyUsable), JsonModel::Bool(self.is_usable)),
            (field_name(DataFieldType::KeyUserID), opt_text_json(self.email)),
            (field_name(DataFieldType::KeyUsername), opt_text_json(self.name)),
        ]);
        JsonValue::Object(JsonMap { entries })
    }
}


/// The text of a JSON string value.
pub open spec fn json_str(v: Option<JsonValue>) -> Option<String> {
    match v {
        Some(JsonValue::String(t)) => Some(t),
        _ => None,
    }
}

/// The truth value of a JSON boolean value.
pub open spec fn json_bool(v: Option<JsonValue>) -> Option<bool> {
    match v {
        Some(JsonValue::Bool(b)) => Some(b),
        _ => None,
    }
}

/// An optional text member: absent, or a JSON string.
pub open spec fn opt_member_ok(v: Option<JsonValue>) -> bool {
    v is None || json_str(v) is Some
}

/// The key a detail map describes: a string under `KeyID`, optional strings under
/// `KeyUsername` and `KeyUserID`, and booleans under `KeyHasSecret`, `KeyUsable`, `CanSign`
/// and `CanEncrypt`; none if any of these is missing or of another kind.
pub open spec fn key_of_detail(d: Seq<(DataFieldType, JsonValue)>) -> Option<Key> {
    let id = json_str(detail_lookup(d, DataFieldType::KeyID));
    let name = detail_lookup(d, DataFieldType::KeyUsername);
    let email = detail_lookup(d, DataFieldType::KeyUserID);
    let hs = json_bool(detail_lookup(d, DataFieldType::KeyHasSecret));
    let us = json_bool(detail_lookup(d, DataFieldType::KeyUsable));
    let cs = json_bool(detail_lookup(d, DataFieldType::CanSign));
    let ce = json_bool(detail_lookup(d, DataFieldType::CanEncrypt));
    if id is Some && opt_member_ok(name) && opt_member_ok(email) && hs is Some && us is Some && cs is Some && ce is Some {
        Some(Key {
            id: id->0,
            name: json_str(name),
            email: json_str(email),
            has_secret: hs->0,
            is_usable: us->0,
            can_sign: cs->0,
            can_encrypt: ce->0,
        })
    } else {
        None
    }
}

/// The entry of a detail map under the key.
fn detail_get<'a>(d: &'a Detail, k: DataFieldType) -> (res: Option<&'a JsonValue>)
    ensures
        match res {
            Some(v) => detail_lookup(d@, k) == Some(*v),
            None => detail_lookup(d@, k) is None,
        },
{
    match detail_position(d, &k) {
        Some(i) => Some(&d[i].1),
        None => None,
    }
}

/// The text of a JSON string value.
fn get_str(v: Option<&JsonValue>) -> (res: Option<String>)
    ensures
        res == json_str(match v { Some(x) => Some(*x), None => None }),
{
    match v {
        Some(JsonValue::String(t)) => Some(t.clone()),
        _ => None,
    }
}

/// The truth value of a JSON boolean value.
fn get_bool(v: Option<&JsonValue>) -> (res: Option<bool>)
    ensures
        res == json_bool(match v { Some(x) => Some(*x), None => None }),
{
    match v {
        Some(JsonValue::Bool(b)) => Some(*b),
        _ => None,
    }
}

impl Key {
    /// The key a detail map describes, if it describes one.
    pub fn from_detail(d: &Detail) -> (res: Option<Key>)
        ensures
            res == key_of_detail(d@),
    {
        let id = get_str(detail_get(d, DataFieldType::KeyID));
        let name_v = detail_get(d, DataFieldType::KeyUsername);
        let email_v = detail_get(d, DataFieldType::KeyUserID);
        let name = get_str(name_v);
        let email = get_str(email_v);
        let hs = get_bool(detail_get(d, DataFieldType::KeyHasSecret));
        let us = get_bool(detail_get(d, DataFieldType::KeyUsable));
        let cs = get_bool(detail_get(d, DataFieldType::CanSign));
        let ce = get_bool(detail_get(d, DataFieldType::CanEncrypt));
        let name_ok = name_v.is_none() || name.is_some();
        let email_ok = email_v.is_none() || email.is_some();
        if id.is_some() && name_ok && email_ok && hs.is_some() && us.is_some() && cs.is_some() && ce.is_some() {
            Some(Key {
                id: id.unwrap(),
                name,
                email,
                has_secret: hs.unwrap(),
                is_usable: us.unwrap(),
                can_sign: cs.unwrap(),
                can_encrypt: ce.unwrap(),
            })
        } else {
            None
        }
    }
}

/// The detail map a key is written as: its fingerprint under both `KeyFingerprint` and
/// `KeyID`, its name, its email, and its four flags.
pub open spec fn key_detail(k: Key) -> Seq<(DataFieldType, JsonModel)> {
    seq![
        (DataFieldType::KeyFingerprint, JsonModel::String(k.id@)),
        (DataFieldType::KeyID, JsonModel::String(k.id@)),
        (DataFieldType::KeyUsername, opt_text_json(k.name)),
        (DataFieldType::KeyUserID, opt_text_json(k.email)),
        (DataFieldType::KeyHasSecret, JsonModel::Bool(k.has_secret)),
        (DataFieldType::KeyUsable, JsonModel::Bool(k.is_usable)),
        (DataFieldType::CanSign, JsonModel::Bool(k.can_sign)),
        (DataFieldType::CanEncrypt, JsonModel::Bool(k.can_encrypt)),
    ]
}

impl Key {
    /// The detail map the key is written as. Read back by `from_detail`, it gives the
    /// same key when the key has a name and an email.
    pub fn to_detail(&self) -> (res: Detail)
        ensures
            detail_model(res@) == key_detail(*self),
            self.name is Some && self.email is Some ==> key_of_detail(res@) == Some(*self),
    {
        let mut d: Detail = Vec::new();
        let name = match &self.name {
            Some(n) => JsonValue::String(n.clone()),
            None => JsonValue::Null,
        };
        let email = match &self.email {
            Some(e) => JsonValue::String(e.clone()),
            None => JsonValue::Null,
        };
        d.push((DataFieldType::KeyFingerprint, JsonValue::String(self.id.clone())));
        d.push((DataFieldType::KeyID, JsonValue::String(self.id.clone())));
        d.push((DataFieldType::KeyUsername, name));
        d.push((DataFieldType::KeyUserID, email));
        d.push((DataFieldType::KeyHasSecret, JsonValue::Bool(self.has_secret)));
        d.push((DataFieldType::KeyUsable, JsonValue::Bool(self.is_usable)));
        d.push((DataFieldType::CanSign, JsonValue::Bool(self.can_sign)));
        d.push((DataFieldType::CanEncrypt, JsonValue::Bool(self.can_encrypt)));
        proof {
            reveal_with_fuel(detail_model, 9);
            assert(d@.drop_last().drop_last().drop_last().drop_last().drop_last().drop_last().drop_last().drop_last()
                =~= Seq::<(DataFieldType, JsonValue)>::empty());
            assert(detail_model(d@) =~= key_detail(*self));
            reveal_with_fuel(detail_lookup, 9);
            if self.name is Some && self.email is Some {
                assert(key_of_detail(d@) == Some(*self));
            }
        }
        d
    }
}

/// The entries of a detail map, given its contents.
proof fn lemma_detail_model_entries(d: Seq<(DataFieldType, JsonValue)>)
    ensures
        detail_model(d).len() == d.len(),
        forall|i: int| 0 <= i < d.len() ==> #[trigger] detail_model(d)[i] == (d[i].0, d[i].1@),
    decreases d.len(),
{
    if d.len() > 0 {
        lemma_detail_model_entries(d.drop_last());
    }
}

/// A JSON value whose content is a string is a string with that text.
proof fn lemma_string_model(v: JsonValue, t: Seq<char>)
    requires
        v@ == JsonModel::String(t),
    ensures
        json_str(Some(v)) matches Some(x) && x@ == t,
{
    match v {
        JsonValue::String(x) => {},
        JsonValue::Null => {},
        JsonValue::Bool(_) => {},
        JsonValue::Number(_) => {},
        JsonValue::Array(_) => {},
        JsonValue::Object(_) => {},
    }
}

/// A JSON value whose content is a boolean is that boolean.
proof fn lemma_bool_model(v: JsonValue, b: bool)
    requires
        v@ == JsonModel::Bool(b),
    ensures
        json_bool(Some(v)) == Some(b),
{
    match v {
        JsonValue::String(_) => {},
        JsonValue::Null => {},
        JsonValue::Bool(_) => {},
        JsonValue::Number(_) => {},
        JsonValue::Array(_) => {},
        JsonValue::Object(_) => {},
    }
}

/// A key written as a detail map and read back is the same key, when it has a name and
/// an email: the same fingerprint, name, email and flags.
pub proof fn lemma_key_detail_read_back(k: Key, d: Seq<(DataFieldType, JsonValue)>)
    requires
        k.name is Some,
        k.email is Some,
        detail_model(d) == key_detail(k),
    ensures
        key_of_detail(d) matches Some(r) && {
            &&& r.id@ == k.id@
            &&& (r.name matches Some(n) && n@ == k.name->0@)
            &&& (r.email matches Some(e) && e@ == k.email->0@)
            &&& r.has_secret == k.has_secret
            &&& r.is_usable == k.is_usable
            &&& r.can_sign == k.can_sign
            &&& r.can_encrypt == k.can_encrypt
        },
{
    lemma_detail_model_entries(d);
    assert(d.len() == 8);
    let m = detail_model(d);
    assert(m[0] == (d[0].0, d[0].1@));
    assert(m[1] == (d[1].0, d[1].1@));
    assert(m[2] == (d[2].0, d[2].1@));
    assert(m[3] == (d[3].0, d[3].1@));
    assert(m[4] == (d[4].0, d[4].1@));
    assert(m[5] == (d[5].0, d[5].1@));
    assert(m[6] == (d[6].0, d[6].1@));
    assert(m[7] == (d[7].0, d[7].1@));
    reveal_with_fuel(detail_lookup, 9);
    lemma_string_model(d[1].1, k.id@);
    lemma_string_model(d[2].1, k.name->0@);
    lemma_string_model(d[3].1, k.email->0@);
    lemma_bool_model(d[4].1, k.has_secret);
    lemma_bool_model(d[5].1, k.is_usable);
    lemma_bool_model(d[6].1, k.can_sign);
    lemma_bool_model(d[7].1, k.can_encrypt);
}

} // verus!
