//! A JSON document model that the library's messages carry as payload.
use vstd::prelude::*;

verus! {

/// A JSON value. A number is held as the text it is written with, so that any JSON
/// number, integral or not, passes through unchanged.
#[derive(Debug)]
pub enum JsonValue {
    Null,
    Bool(bool),
    Number(String),
    String(String),
    Array(Vec<JsonValue>),
    Object(JsonMap),
}

/// A JSON object: its members in order. Looking a key up finds its first member.
#[derive(Debug)]
pub struct JsonMap {
    pub entries: Vec<(String, JsonValue)>,
}

impl JsonMap {
    /// An object with no members.
    pub fn new() -> (res: JsonMap)
        ensures
            res.entries@.len() == 0,
    {
        JsonMap { entries: Vec::new() }
    }
}

/// A JSON string holding `s`.
pub fn json_string(s: String) -> (res: JsonValue)
    ensures
        res == JsonValue::String(s),
{
    JsonValue::String(s)
}

/// The mathematical content of a JSON value: text as character sequences, arrays and
/// objects as sequences.
pub enum JsonModel {
    Null,
    Bool(bool),
    Number(Seq<char>),
    String(Seq<char>),
    Array(Seq<JsonModel>),
    Object(Seq<(Seq<char>, JsonModel)>),
}

/// The content of a value.
pub open spec fn json_model(v: JsonValue) -> JsonModel
    decreases v,
{
    match v {
        JsonValue::Null => JsonModel::Null,
        JsonValue::Bool(b) => JsonModel::Bool(b),
        JsonValue::Number(n) => JsonModel::Number(n@),
        JsonValue::String(t) => JsonModel::String(t@),
        JsonValue::Array(items) => JsonModel::Array(json_model_seq(items@)),
        JsonValue::Object(map) => JsonModel::Object(json_model_entries(map.entries@)),
    }
}

/// The contents of a sequence of values.
pub open spec fn json_model_seq(s: Seq<JsonValue>) -> Seq<JsonModel>
    decreases s,
{
    if s.len() == 0 {
        Seq::empty()
    } else {
        json_model_seq(s.drop_last()).push(json_model(s.last()))
    }
}

/// The contents of the members of an object.
pub open spec fn json_model_entries(s: Seq<(String, JsonValue)>) -> Seq<(Seq<char>, JsonModel)>
    decreases s,
{
    if s.len() == 0 {
        Seq::empty()
    } else {
        json_model_entries(s.drop_last()).push((s.last().0@, json_model(s.last().1)))
    }
}

impl View for JsonValue {
    type V = JsonModel;

    open spec fn view(&self) -> JsonModel {
        json_model(*self)
    }
}

/// The number of values nested in a value, itself included.
pub open spec fn json_size(v: JsonValue) -> nat
    decreases v,
{
    match v {
        JsonValue::Array(items) => 1 + json_size_seq(items@),
        JsonValue::Object(map) => 1 + json_size_entries(map.entries@),
        _ => 1,
    }
}

/// The number of values nested in a sequence of values.
pub open spec fn json_size_seq(s: Seq<JsonValue>) -> nat
    decreases s,
{
    if s.len() == 0 {
        0
    } else {
        json_size_seq(s.drop_last()) + json_size(s.last())
    }
}

/// The number of values nested in the members of an object.
pub open spec fn json_size_entries(s: Seq<(String, JsonValue)>) -> nat
    decreases s,
{
    if s.len() == 0 {
        0
    } else {
        json_size_entries(s.drop_last()) + json_size(s.last().1)
    }
}

/// Each value of a sequence is smaller than the whole sequence.
pub proof fn lemma_size_seq_item(s: Seq<JsonValue>, i: int)
    requires
        0 <= i < s.len(),
    ensures
        json_size(s[i]) <= json_size_seq(s),
    decreases s.len(),
{
    if i < s.len() - 1 {
        lemma_size_seq_item(s.drop_last(), i);
    }
}

/// Each member value of an object is smaller than all its members together.
pub proof fn lemma_size_entries_item(s: Seq<(String, JsonValue)>, i: int)
    requires
        0 <= i < s.len(),
    ensures
        json_size(s[i].1) <= json_size_entries(s),
    decreases s.len(),
{
    if i < s.len() - 1 {
        lemma_size_entries_item(s.drop_last(), i);
    }
}

impl JsonValue {
    /// A copy of the value.
    pub fn copy(&self) -> (res: JsonValue)
        ensures
            res@ == self@,
        decreases json_size(*self),
    {
        match self {
            JsonValue::Null => JsonValue::Null,
            JsonValue::Bool(b) => JsonValue::Bool(*b),
            JsonValue::Number(n) => JsonValue::Number(n.clone()),
            JsonValue::String(t) => JsonValue::String(t.clone()),
            JsonValue::Array(items) => {
                let mut res: Vec<JsonValue> = Vec::new();
                let mut i: usize = 0;
                while i < items.len()
                    invariant
                        *self == JsonValue::Array(*items),
                        i <= items@.len(),
                        json_model_seq(res@) == json_model_seq(items@.subrange(0, i as int)),
                    decreases items@.len() - i,
                {
                    proof {
                        lemma_size_seq_item(items@, i as int);
                    }
                    let item = items[i].copy();
                    let ghost prev = res@;
                    res.push(item);
                    i = i + 1;
                    assert(res@.drop_last() =~= prev);
                    assert(items@.subrange(0, i as int).drop_last() =~= items@.subrange(0, i - 1));
                }
                assert(items@.subrange(0, i as int) =~= items@);
                JsonValue::Array(res)
            },
            JsonValue::Object(map) => {
                let mut res: Vec<(String, JsonValue)> = Vec::new();
                let mut i: usize = 0;
                while i < map.entries.len()
                    invariant
                        *self == JsonValue::Object(*map),
                        i <= map.entries@.len(),
                        json_model_entries(res@) == json_model_entries(
                            map.entries@.subrange(0, i as int),
                        ),
                    decreases map.entries@.len() - i,
                {
                    proof {
                        lemma_size_entries_item(map.entries@, i as int);
                    }
                    let (k, v) = &map.entries[i];
                    let v2 = v.copy();
                    let ghost prev = res@;
                    res.push((k.clone(), v2));
                    i = i + 1;
                    assert(res@.drop_last() =~= prev);
                    assert(map.entries@.subrange(0, i as int).drop_last() =~= map.entries@.subrange(
                        0,
                        i - 1,
                    ));
                }
                assert(map.entries@.subrange(0, i as int) =~= map.entries@);
                JsonValue::Object(JsonMap { entries: res })
            },
        }
    }
}

/// Appends a member to a list of object members.
pub fn push_entry(entries: &mut Vec<(String, JsonValue)>, key: String, value: JsonValue)
    ensures
        final(entries)@ == old(entries)@.push((key, value)),
        json_model_entries(final(entries)@) == json_model_entries(old(entries)@).push((key@, value@)),
{
    entries.push((key, value));
    assert(final(entries)@.drop_last() =~= old(entries)@);
}


/// The hexadecimal digit, in lower case, of a number below 16.
pub open spec fn hex_digit(n: u32) -> char {
    if n == 0 {
        '0'
    } else if n == 1 {
        '1'
    } else if n == 2 {
        '2'
    } else if n == 3 {
        '3'
    } else if n == 4 {
        '4'
    } else if n == 5 {
        '5'
    } else if n == 6 {
        '6'
    } else if n == 7 {
        '7'
    } else if n == 8 {
        '8'
    } else if n == 9 {
        '9'
    } else if n == 10 {
        'a'
    } else if n == 11 {
        'b'
    } else if n == 12 {
        'c'
    } else if n == 13 {
        'd'
    } else if n == 14 {
        'e'
    } else {
        'f'
    }
}

/// A character as it is written inside a JSON string: quote and backslash escaped, the
/// usual short escapes for backspace, form feed, newline, return and tab, other control
/// characters as `\u00XX`, and any other character as itself.
pub open spec fn escape_char(c: char) -> Seq<char> {
    if c == '"' {
        seq!['\\', '"']
    } else if c == '\\' {
        seq!['\\', '\\']
    } else if c == '\u{8}' {
        seq!['\\', 'b']
    } else if c == '\u{c}' {
        seq!['\\', 'f']
    } else if c == '\n' {
        seq!['\\', 'n']
    } else if c == '\r' {
        seq!['\\', 'r']
    } else if c == '\t' {
        seq!['\\', 't']
    } else if (c as u32) < 0x20 {
        seq!['\\', 'u', '0', '0', hex_digit((c as u32) / 16), hex_digit((c as u32) % 16)]
    } else {
        seq![c]
    }
}

/// The characters of a text as written inside a JSON string.
pub open spec fn escaped(s: Seq<char>) -> Seq<char>
    decreases s.len(),
{
    if s.len() == 0 {
        Seq::empty()
    } else {
        escaped(s.drop_last()) + escape_char(s.last())
    }
}

/// A text written as a JSON string.
pub open spec fn string_text(s: Seq<char>) -> Seq<char> {
    seq!['"'] + escaped(s) + seq!['"']
}

/// The compact JSON text of a value: no spaces, members in order.
pub open spec fn json_text(v: JsonValue) -> Seq<char>
    decreases v,
{
    match v {
        JsonValue::Null => "null"@,
        JsonValue::Bool(b) => if b { "true"@ } else { "false"@ },
        JsonValue::Number(n) => n@,
        JsonValue::String(t) => string_text(t@),
        JsonValue::Array(items) => seq!['['] + json_text_items(items@) + seq![']'],
        JsonValue::Object(map) => seq!['{'] + json_text_members(map.entries@) + seq!['}'],
    }
}

/// The texts of the values, separated by commas.
pub open spec fn json_text_items(s: Seq<JsonValue>) -> Seq<char>
    decreases s,
{
    if s.len() == 0 {
        Seq::empty()
    } else if s.len() == 1 {
        json_text(s[0])
    } else {
        json_text_items(s.drop_last()) + seq![','] + json_text(s.last())
    }
}

/// The texts of the members, each as its key's string, a colon and its value, separated
/// by commas.
pub open spec fn json_text_members(s: Seq<(String, JsonValue)>) -> Seq<char>
    decreases s,
{
    if s.len() == 0 {
        Seq::empty()
    } else if s.len() == 1 {
        string_text(s[0].0@) + seq![':'] + json_text(s[0].1)
    } else {
        json_text_members(s.drop_last()) + seq![','] + string_text(s.last().0@) + seq![':'] + json_text(
            s.last().1,
        )
    }
}

/// Appends the characters.
fn push_chars(out: &mut String, cs: &[char])
    ensures
        final(out)@ == old(out)@ + cs@,
{
    let mut i: usize = 0;
    while i < cs.len()
        invariant
            i <= cs@.len(),
            out@ == old(out)@ + cs@.subrange(0, i as int),
        decreases cs@.len() - i,
    {
        crate::util::push_char(out, cs[i]);
        i = i + 1;
        assert(out@ =~= old(out)@ + cs@.subrange(0, i as int));
    }
    assert(cs@.subrange(0, cs@.len() as int) =~= cs@);
}

/// The hexadecimal digit, in lower case, of a number below 16.
fn hex_digit_exec(n: u32) -> (c: char)
    requires
        n < 16,
    ensures
        c == hex_digit(n),
{
    if n == 0 {
        '0'
    } else if n == 1 {
        '1'
    } else if n == 2 {
        '2'
    } else if n == 3 {
        '3'
    } else if n == 4 {
        '4'
    } else if n == 5 {
        '5'
    } else if n == 6 {
        '6'
    } else if n == 7 {
        '7'
    } else if n == 8 {
        '8'
    } else if n == 9 {
        '9'
    } else if n == 10 {
        'a'
    } else if n == 11 {
        'b'
    } else if n == 12 {
        'c'
    } else if n == 13 {
        'd'
    } else if n == 14 {
        'e'
    } else {
        'f'
    }
}

/// Appends a character as written inside a JSON string.
fn push_escaped(out: &mut String, c: char)
    ensures
        final(out)@ == old(out)@ + escape_char(c),
{
    if c == '"' {
        push_chars(out, &['\\', '"']);
    } else if c == '\\' {
        push_chars(out, &['\\', '\\']);
    } else if c == '\u{8}' {
        push_chars(out, &['\\', 'b']);
    } else if c == '\u{c}' {
        push_chars(out, &['\\', 'f']);
    } else if c == '\n' {
        push_chars(out, &['\\', 'n']);
    } else if c == '\r' {
        push_chars(out, &['\\', 'r']);
    } else if c == '\t' {
        push_chars(out, &['\\', 't']);
    } else if (c as u32) < 0x20 {
        let n = c as u32;
        push_chars(out, &['\\', 'u', '0', '0', hex_digit_exec(n / 16), hex_digit_exec(n % 16)]);
    } else {
        crate::util::push_char(out, c);
        assert(out@ =~= old(out)@ + seq![c]);
    }
}

/// Appends a text written as a JSON string.
pub fn write_string(out: &mut String, s: &str)
    ensures
        final(out)@ == old(out)@ + string_text(s@),
{
    let cs = crate::text::chars_of(s);
    crate::util::push_char(out, '"');
    let ghost start = out@;
    let mut i: usize = 0;
    while i < cs.len()
        invariant
            cs@ == s@,
            i <= cs@.len(),
            out@ == start + escaped(s@.subrange(0, i as int)),
        decreases cs@.len() - i,
    {
        push_escaped(out, cs[i]);
        assert(s@.subrange(0, i + 1).drop_last() =~= s@.subrange(0, i as int));
        i = i + 1;
        assert(out@ =~= start + escaped(s@.subrange(0, i as int)));
    }
    assert(s@.subrange(0, s@.len() as int) =~= s@);
    crate::util::push_char(out, '"');
    assert(out@ =~= old(out)@ + string_text(s@));
}

/// Appends the compact JSON text of the value.
pub fn write_json(out: &mut String, v: &JsonValue)
    ensures
        final(out)@ == old(out)@ + json_text(*v),
    decreases json_size(*v),
{
    match v {
        JsonValue::Null => {
            crate::text::append_text(out, "null");
            proof { reveal_strlit("null"); }
        },
        JsonValue::Bool(b) => {
            if *b {
                crate::text::append_text(out, "true");
            } else {
                crate::text::append_text(out, "false");
            }
        },
        JsonValue::Number(n) => {
            crate::text::append_text(out, n.as_str());
        },
        JsonValue::String(t) => {
            write_string(out, t.as_str());
        },
        JsonValue::Array(items) => {
            crate::util::push_char(out, '[');
            let ghost start = out@;
            let mut i: usize = 0;
            while i < items.len()
                invariant
                    *v == JsonValue::Array(*items),
                    i <= items@.len(),
                    out@ == start + json_text_items(items@.subrange(0, i as int)),
                decreases items@.len() - i,
            {
                proof {
                    lemma_size_seq_item(items@, i as int);
                }
                if i > 0 {
                    crate::util::push_char(out, ',');
                }
                write_json(out, &items[i]);
                assert(items@.subrange(0, i + 1).drop_last() =~= items@.subrange(0, i as int));
                i = i + 1;
                assert(out@ =~= start + json_text_items(items@.subrange(0, i as int)));
            }
            assert(items@.subrange(0, items@.len() as int) =~= items@);
            crate::util::push_char(out, ']');
            assert(out@ =~= old(out)@ + json_text(*v));
        },
        JsonValue::Object(map) => {
            crate::util::push_char(out, '{');
            let ghost start = out@;
            let mut i: usize = 0;
            while i < map.entries.len()
                invariant
                    *v == JsonValue::Object(*map),
                    i <= map.entries@.len(),
                    out@ == start + json_text_members(map.entries@.subrange(0, i as int)),
                decreases map.entries@.len() - i,
            {
                proof {
                    lemma_size_entries_item(map.entries@, i as int);
                }
                if i > 0 {
                    crate::util::push_char(out, ',');
                }
                write_string(out, map.entries[i].0.as_str());
                crate::util::push_char(out, ':');
                write_json(out, &map.entries[i].1);
                assert(map.entries@.subrange(0, i + 1).drop_last() =~= map.entries@.subrange(0, i as int));
                i = i + 1;
                assert(out@ =~= start + json_text_members(map.entries@.subrange(0, i as int)));
            }
            assert(map.entries@.subrange(0, map.entries@.len() as int) =~= map.entries@);
            crate::util::push_char(out, '}');
            assert(out@ =~= old(out)@ + json_text(*v));
        },
    }
}

/// The compact JSON text of the value.
pub fn to_json_text(v: &JsonValue) -> (res: String)
    ensures
        res@ == json_text(*v),
{
    let mut out = String::new();
    write_json(&mut out, v);
    assert(out@ =~= json_text(*v));
    out
}


/// The value of the first member with the name.
pub open spec fn member_value(m: Seq<(String, JsonValue)>, name: Seq<char>) -> Option<JsonValue>
    decreases m.len(),
{
    if m.len() == 0 {
        None
    } else if m[0].0@ == name {
        Some(m[0].1)
    } else {
        member_value(m.drop_first(), name)
    }
}

/// The error a lookup in a value that is not an object reports.
pub open spec fn not_object_error() -> Seq<char> {
    "Passed serde_json::Value is not of Object"@
}

impl JsonMap {
    /// The value of the first member with the name.
    pub fn get<'a>(&'a self, key: &str) -> (res: Option<&'a JsonValue>)
        ensures
            match res {
                Some(v) => member_value(self.entries@, key@) == Some(*v),
                None => member_value(self.entries@, key@) is None,
            },
    {
        let mut i: usize = 0;
        assert(self.entries@.skip(0) =~= self.entries@);
        while i < self.entries.len()
            invariant
                i <= self.entries@.len(),
                member_value(self.entries@, key@) == member_value(self.entries@.skip(i as int), key@),
            decreases self.entries@.len() - i,
        {
            assert(self.entries@.skip(i as int).drop_first() =~= self.entries@.skip(i + 1));
            if crate::text::same_text(self.entries[i].0.as_str(), key) {
                return Some(&self.entries[i].1);
            }
            i = i + 1;
        }
        None
    }

    /// The text of the member with the name, if it is a string.
    pub fn get_string<'a>(&'a self, key: &str) -> (res: Result<Option<&'a str>, String>)
        ensures
            res matches Ok(r) && match member_value(self.entries@, key@) {
                Some(JsonValue::String(t)) => r matches Some(x) && x@ == t@,
                _ => r is None,
            },
    {
        match self.get(key) {
            Some(JsonValue::String(t)) => Ok(Some(t.as_str())),
            _ => Ok(None),
        }
    }

    /// The member with the name, if it is an object.
    pub fn get_object<'a>(&'a self, key: &str) -> (res: Result<Option<&'a JsonMap>, String>)
        ensures
            res matches Ok(r) && match member_value(self.entries@, key@) {
                Some(JsonValue::Object(m)) => r == Some(&m),
                _ => r is None,
            },
    {
        match self.get(key) {
            Some(JsonValue::Object(m)) => Ok(Some(m)),
            _ => Ok(None),
        }
    }
}

/// The position of the first member with the name.
pub open spec fn member_position(m: Seq<(String, JsonValue)>, name: Seq<char>) -> Option<int>
    decreases m.len(),
{
    if m.len() == 0 {
        None
    } else if m[0].0@ == name {
        Some(0)
    } else {
        match member_position(m.drop_first(), name) {
            Some(i) => Some(i + 1),
            None => None,
        }
    }
}

/// Where the first member with the name stands, and what it holds.
pub proof fn lemma_member_position(m: Seq<(String, JsonValue)>, name: Seq<char>)
    ensures
        match member_position(m, name) {
            Some(i) => 0 <= i < m.len() && m[i].0@ == name && member_value(m, name) == Some(m[i].1)
                && forall|j: int| 0 <= j < i ==> m[j].0@ != name,
            None => member_value(m, name) is None && forall|j: int| 0 <= j < m.len() ==> m[j].0@ != name,
        },
    decreases m.len(),
{
    if m.len() > 0 && m[0].0@ != name {
        lemma_member_position(m.drop_first(), name);
        assert forall|j: int| 1 <= j < m.len() implies #[trigger] m[j] == m.drop_first()[j - 1] by {}
    }
}

/// A member changed in place is what a lookup of its name then finds: replacing the value
/// of the first member with a name is seen by `get`, `get_string` and `get_object`.
pub proof fn lemma_changed_member_read_back(m: Seq<(String, JsonValue)>, name: Seq<char>, v: JsonValue)
    requires
        member_position(m, name) is Some,
    ensures
        member_value(
            m.update(member_position(m, name)->0, (m[member_position(m, name)->0].0, v)),
            name,
        ) == Some(v),
    decreases m.len(),
{
    lemma_member_position(m, name);
    let i = member_position(m, name)->0;
    let u = m.update(i, (m[i].0, v));
    if m[0].0@ != name {
        assert(member_position(m.drop_first(), name) == Some(i - 1));
        lemma_changed_member_read_back(m.drop_first(), name, v);
        assert(u[0] == m[0]);
        assert(u.drop_first() =~= m.drop_first().update(i - 1, (m.drop_first()[i - 1].0, v)));
    } else {
        assert(i == 0);
        assert(u[0].0@ == name);
    }
}

impl JsonMap {
    /// The position of the first member with the name.
    pub fn position(&self, key: &str) -> (res: Option<usize>)
        ensures
            match res {
                Some(i) => member_position(self.entries@, key@) == Some(i as int),
                None => member_position(self.entries@, key@) is None,
            },
    {
        let mut i: usize = 0;
        assert(self.entries@.skip(0) =~= self.entries@);
        while i < self.entries.len()
            invariant
                i <= self.entries@.len(),
                match member_position(self.entries@.skip(i as int), key@) {
                    Some(j) => member_position(self.entries@, key@) == Some(j + i),
                    None => member_position(self.entries@, key@) is None,
                },
            decreases self.entries@.len() - i,
        {
            assert(self.entries@.skip(i as int).drop_first() =~= self.entries@.skip(i + 1));
            if crate::text::same_text(self.entries[i].0.as_str(), key) {
                return Some(i);
            }
            i = i + 1;
        }
        None
    }

    /// The member with the name, if it is an object, to be changed in place.
    pub fn get_object_mut<'a>(&'a mut self, key: &str) -> (res: Result<Option<&'a mut JsonMap>, String>)
        ensures
            res matches Ok(r) && match member_position(old(self).entries@, key@) {
                Some(i) => match old(self).entries@[i].1 {
                    JsonValue::Object(m) => r matches Some(x) && *x == m
                        && final(self).entries@ == old(self).entries@.update(
                            i,
                            (old(self).entries@[i].0, JsonValue::Object(*final(x))),
                        ),
                    _ => r is None && *final(self) == *old(self),
                },
                None => r is None && *final(self) == *old(self),
            },
    {
        match self.position(key) {
            Some(i) => {
                proof { lemma_member_position(self.entries@, key@); }
                if !matches!(self.entries[i].1, JsonValue::Object(_)) {
                    return Ok(None);
                }
                let entry = &mut self.entries[i];
                match &mut entry.1 {
                    JsonValue::Object(m) => Ok(Some(m)),
                    _ => Ok(None),
                }
            },
            None => Ok(None),
        }
    }
}

impl JsonValue {
    /// The text of the member with the name, if it is a string; an error if the value is
    /// not an object.
    pub fn get_string<'a>(&'a self, key: &str) -> (res: Result<Option<&'a str>, String>)
        ensures
            match self {
                JsonValue::Object(m) => res matches Ok(r) && match member_value(m.entries@, key@) {
                    Some(JsonValue::String(t)) => r matches Some(x) && x@ == t@,
                    _ => r is None,
                },
                _ => res matches Err(e) && e@ == not_object_error(),
            },
    {
        match self {
            JsonValue::Object(m) => m.get_string(key),
            _ => Err("Passed serde_json::Value is not of Object".to_string()),
        }
    }

    /// The member with the name, if it is an object; an error if the value is not an
    /// object.
    pub fn get_object<'a>(&'a self, key: &str) -> (res: Result<Option<&'a JsonMap>, String>)
        ensures
            match self {
                JsonValue::Object(m) => res matches Ok(r) && match member_value(m.entries@, key@) {
                    Some(JsonValue::Object(x)) => r == Some(&x),
                    _ => r is None,
                },
                _ => res matches Err(e) && e@ == not_object_error(),
            },
    {
        match self {
            JsonValue::Object(m) => m.get_object(key),
            _ => Err("Passed serde_json::Value is not of Object".to_string()),
        }
    }
}


impl JsonValue {
    /// The member with the name, if it is an object, to be changed in place; an error if
    /// the value is not an object.
    pub fn get_object_mut<'a>(&'a mut self, key: &str) -> (res: Result<Option<&'a mut JsonMap>, String>)
        ensures
            match *old(self) {
                JsonValue::Object(m) => *final(self) matches JsonValue::Object(fm) && res matches Ok(r)
                    && match member_position(m.entries@, key@) {
                        Some(i) => match m.entries@[i].1 {
                            JsonValue::Object(inner) => r matches Some(x) && *x == inner
                                && fm.entries@ == m.entries@.update(
                                    i,
                                    (m.entries@[i].0, JsonValue::Object(*final(x))),
                                ),
                            _ => r is None && fm == m,
                        },
                        None => r is None && fm == m,
                    },
                _ => res matches Err(e) && e@ == not_object_error() && *final(self) == *old(self),
            },
    {
        match self {
            JsonValue::Object(m) => m.get_object_mut(key),
            _ => Err("Passed serde_json::Value is not of Object".to_string()),
        }
    }
}

/// The position of the first member with the key, if any.
pub open spec fn member_index(m: Seq<(Seq<char>, JsonModel)>, k: Seq<char>) -> Option<int> {
    if exists|i: int| 0 <= i < m.len() && m[i].0 == k && forall|j: int| 0 <= j < i ==> m[j].0 != k {
        Some(choose|i: int| 0 <= i < m.len() && m[i].0 == k && forall|j: int| 0 <= j < i ==> m[j].0 != k)
    } else {
        None
    }
}

/// The members with the key's value set: the first member with the key replaced, or the
/// member appended.
pub open spec fn set_member(m: Seq<(Seq<char>, JsonModel)>, k: Seq<char>, v: JsonModel) -> Seq<(Seq<char>, JsonModel)> {
    match member_index(m, k) {
        Some(i) => m.update(i, (k, v)),
        None => m.push((k, v)),
    }
}

/// The value of the first member with the key, or `null`.
pub open spec fn member_or_null(m: Seq<(Seq<char>, JsonModel)>, k: Seq<char>) -> JsonModel {
    match member_index(m, k) {
        Some(i) => m[i].1,
        None => JsonModel::Null,
    }
}

/// `b` merged into `a`: two objects are merged member by member, each member of `b`
/// merged into `a`'s member with the same key (`null` if it has none); otherwise `b`
/// replaces `a`.
pub open spec fn merged(a: JsonModel, b: JsonModel) -> JsonModel
    decreases b, 0nat,
{
    match (a, b) {
        (JsonModel::Object(am), JsonModel::Object(bm)) => JsonModel::Object(merge_members(am, bm)),
        _ => b,
    }
}

/// The members of `bm`, in order, merged into `am`.
pub open spec fn merge_members(am: Seq<(Seq<char>, JsonModel)>, bm: Seq<(Seq<char>, JsonModel)>) -> Seq<
    (Seq<char>, JsonModel),
>
    decreases bm, 1nat,
{
    if bm.len() == 0 {
        am
    } else {
        let m1 = merge_members(am, bm.drop_last());
        let last = bm[bm.len() - 1];
        set_member(m1, last.0, merged(member_or_null(m1, last.0), last.1))
    }
}


/// The contents of the members, member by member.
pub proof fn lemma_entries_model(s: Seq<(String, JsonValue)>)
    ensures
        json_model_entries(s).len() == s.len(),
        forall|i: int| 0 <= i < s.len() ==> #[trigger] json_model_entries(s)[i] == (s[i].0@, s[i].1@),
    decreases s.len(),
{
    if s.len() > 0 {
        lemma_entries_model(s.drop_last());
    }
}

/// The position of the first member with the key.
fn find_member(entries: &Vec<(String, JsonValue)>, k: &String) -> (res: Option<usize>)
    ensures
        match res {
            Some(i) => i < entries@.len() && member_index(json_model_entries(entries@), k@) == Some(i as int),
            None => member_index(json_model_entries(entries@), k@) is None,
        },
{
    proof {
        lemma_entries_model(entries@);
    }
    let ghost m = json_model_entries(entries@);
    let mut i: usize = 0;
    while i < entries.len()
        invariant
            i <= entries@.len(),
            m == json_model_entries(entries@),
            m.len() == entries@.len(),
            forall|j: int| 0 <= j < entries@.len() ==> #[trigger] m[j] == (entries@[j].0@, entries@[j].1@),
            forall|j: int| 0 <= j < i ==> m[j].0 != k@,
        decreases entries@.len() - i,
    {
        if entries[i].0 == *k {
            proof {
                assert(m[i as int].0 == k@);
                let c = choose|c: int| 0 <= c < m.len() && m[c].0 == k@ && forall|j: int| 0 <= j < c ==> m[j].0 != k@;
                if c < i {
                    assert(m[c].0 != k@);
                } else if c > i {
                    assert(m[i as int].0 != k@);
                }
            }
            return Some(i);
        }
        i = i + 1;
    }
    proof {
        if exists|c: int| 0 <= c < m.len() && m[c].0 == k@ && forall|j: int| 0 <= j < c ==> m[j].0 != k@ {
            let c = choose|c: int| 0 <= c < m.len() && m[c].0 == k@ && forall|j: int| 0 <= j < c ==> m[j].0 != k@;
            assert(m[c].0 != k@);
        }
    }
    None
}

/// Merges `b` into `a`: two objects member by member, each member of `b` into `a`'s
/// member with the same key, added as `null` first if `a` has none; otherwise `a`
/// becomes a copy of `b`.
pub fn merge_json(a: &mut JsonValue, b: &JsonValue)
    ensures
        final(a)@ == merged(old(a)@, b@),
    decreases json_size(*b),
{
    let both = match (&*a, b) {
        (JsonValue::Object(_), JsonValue::Object(_)) => true,
        _ => false,
    };
    if !both {
        *a = b.copy();
        return;
    }
    let mut taken = JsonValue::Null;
    std::mem::swap(&mut taken, a);
    let mut am = match taken {
        JsonValue::Object(m) => m,
        _ => JsonMap::new(),
    };
    let bm = match b {
        JsonValue::Object(m) => m,
        _ => {
            assert(false);
            return;
        },
    };
    let ghost am0 = json_model_entries(am.entries@);
    let ghost bmodel = json_model_entries(bm.entries@);
    proof {
        lemma_entries_model(bm.entries@);
        assert(bmodel.take(0) =~= Seq::<(Seq<char>, JsonModel)>::empty());
    }
    let mut i: usize = 0;
    while i < bm.entries.len()
        invariant
            *b == JsonValue::Object(*bm),
            i <= bm.entries@.len(),
            bmodel == json_model_entries(bm.entries@),
            bmodel.len() == bm.entries@.len(),
            forall|j: int| 0 <= j < bm.entries@.len() ==> #[trigger] bmodel[j] == (bm.entries@[j].0@, bm.entries@[j].1@),
            json_model_entries(am.entries@) == merge_members(am0, bmodel.take(i as int)),
        decreases bm.entries@.len() - i,
    {
        proof {
            lemma_size_entries_item(bm.entries@, i as int);
            assert(bmodel.take(i + 1).drop_last() =~= bmodel.take(i as int));
            assert(bmodel.take(i + 1)[i as int] == bmodel[i as int]);
            lemma_entries_model(am.entries@);
        }
        let ghost cur = json_model_entries(am.entries@);
        let key = &bm.entries[i].0;
        match find_member(&am.entries, key) {
            Some(j) => {
                let (kk, mut v) = am.entries.remove(j);
                let ghost removed = am.entries@;
                assert(v@ == member_or_null(cur, key@));
                merge_json(&mut v, &bm.entries[i].1);
                am.entries.insert(j, (kk, v));
                proof {
                    let s0 = am.entries@;
                    assert(s0 == removed.insert(j as int, (kk, v)));
                    assert(kk@ == key@);
                    lemma_entries_model(s0);
                    assert(json_model_entries(s0) =~= cur.update(j as int, (key@, merged(member_or_null(cur, key@), bm.entries@[i as int].1@))));
                }
            },
            None => {
                let mut v = JsonValue::Null;
                assert(v@ == member_or_null(cur, key@));
                merge_json(&mut v, &bm.entries[i].1);
                am.entries.push((key.clone(), v));
                proof {
                    lemma_entries_model(am.entries@);
                    assert(json_model_entries(am.entries@) =~= cur.push((key@, merged(member_or_null(cur, key@), bm.entries@[i as int].1@))));
                }
            },
        }
        i = i + 1;
    }
    assert(bmodel.take(bm.entries@.len() as int) =~= bmodel);
    *a = JsonValue::Object(am);
}

/// The first member with key `k` stands at position `i`.
proof fn lemma_member_index_at(m: Seq<(Seq<char>, JsonModel)>, k: Seq<char>, i: int)
    requires
        0 <= i < m.len(),
        m[i].0 == k,
        forall|j: int| 0 <= j < i ==> m[j].0 != k,
    ensures
        member_index(m, k) == Some(i),
{
    let c = choose|c: int| 0 <= c < m.len() && m[c].0 == k && forall|j: int| 0 <= j < c ==> m[j].0 != k;
    if c < i {
        assert(m[c].0 != k);
    } else if c > i {
        assert(m[i].0 != k);
    }
}

/// A member with key `k` at position `j` means a first one exists at or before `j`.
proof fn lemma_first_member_exists(m: Seq<(Seq<char>, JsonModel)>, k: Seq<char>, j: int)
    requires
        0 <= j < m.len(),
        m[j].0 == k,
    ensures
        member_index(m, k) matches Some(i) && 0 <= i <= j && m[i].0 == k && forall|l: int| 0 <= l < i ==> m[l].0 != k,
    decreases j,
{
    if exists|l: int| 0 <= l < j && m[l].0 == k {
        let l = choose|l: int| 0 <= l < j && m[l].0 == k;
        lemma_first_member_exists(m, k, l);
    } else {
        lemma_member_index_at(m, k, j);
    }
}

/// What `member_index` finds: the first member with the key, or none when no member has it.
proof fn lemma_member_index(m: Seq<(Seq<char>, JsonModel)>, k: Seq<char>)
    ensures
        match member_index(m, k) {
            Some(i) => 0 <= i < m.len() && m[i].0 == k && forall|l: int| 0 <= l < i ==> m[l].0 != k,
            None => forall|l: int| 0 <= l < m.len() ==> m[l].0 != k,
        },
{
    if exists|l: int| 0 <= l < m.len() && m[l].0 == k {
        let l = choose|l: int| 0 <= l < m.len() && m[l].0 == k;
        lemma_first_member_exists(m, k, l);
    }
}

/// Setting a key's value: the key then has that value.
proof fn lemma_set_member_same(m: Seq<(Seq<char>, JsonModel)>, k: Seq<char>, x: JsonModel)
    ensures
        member_index(set_member(m, k, x), k) is Some,
        member_or_null(set_member(m, k, x), k) == x,
{
    lemma_member_index(m, k);
    match member_index(m, k) {
        Some(i) => lemma_member_index_at(set_member(m, k, x), k, i),
        None => lemma_member_index_at(set_member(m, k, x), k, m.len() as int),
    }
}

/// Setting a key's value leaves every other key as it was.
proof fn lemma_set_member_other(m: Seq<(Seq<char>, JsonModel)>, k: Seq<char>, x: JsonModel, k2: Seq<char>)
    requires
        k2 != k,
    ensures
        member_index(set_member(m, k, x), k2) is Some == member_index(m, k2) is Some,
        member_or_null(set_member(m, k, x), k2) == member_or_null(m, k2),
{
    let u = set_member(m, k, x);
    lemma_member_index(m, k);
    lemma_member_index(m, k2);
    lemma_member_index(u, k2);
    match member_index(m, k2) {
        Some(i) => {
            assert(u[i] == m[i]);
            assert forall|l: int| 0 <= l < i implies u[l].0 != k2 by {
                assert(m[l].0 != k2);
            }
            lemma_member_index_at(u, k2, i);
        },
        None => {
            assert forall|l: int| 0 <= l < u.len() implies u[l].0 != k2 by {
                if l < m.len() {
                    assert(m[l].0 != k2);
                }
            }
        },
    }
}

/// Setting a key to the value it has changes nothing.
proof fn lemma_set_member_own(m: Seq<(Seq<char>, JsonModel)>, k: Seq<char>)
    requires
        member_index(m, k) is Some,
    ensures
        set_member(m, k, member_or_null(m, k)) == m,
{
    lemma_member_index(m, k);
    let i = member_index(m, k)->0;
    assert(set_member(m, k, member_or_null(m, k)) =~= m);
}

/// No two members have the same key.
pub open spec fn distinct_keys(m: Seq<(Seq<char>, JsonModel)>) -> bool {
    forall|i: int, j: int| 0 <= i < j < m.len() ==> m[i].0 != m[j].0
}

/// Some member has the key.
pub open spec fn has_key(m: Seq<(Seq<char>, JsonModel)>, k: Seq<char>) -> bool {
    exists|j: int| 0 <= j < m.len() && m[j].0 == k
}

/// Every object of the value, at any depth of nested objects, has distinct keys: what a
/// JSON object read into a map always has.
pub open spec fn well_keyed(v: JsonModel) -> bool
    decreases v,
{
    match v {
        JsonModel::Object(m) => distinct_keys(m) && forall|j: int| 0 <= j < m.len() ==> well_keyed(#[trigger] m[j].1),
        _ => true,
    }
}

/// Merging members with distinct keys: each key of `bm` ends with its value merged into
/// the old one, and the other keys keep their values.
#[verifier::rlimit(60)]
proof fn lemma_merge_members_keys(am: Seq<(Seq<char>, JsonModel)>, bm: Seq<(Seq<char>, JsonModel)>)
    requires
        distinct_keys(bm),
    ensures
        forall|j: int| 0 <= j < bm.len() ==> member_index(merge_members(am, bm), #[trigger] bm[j].0) is Some
            && member_or_null(merge_members(am, bm), bm[j].0) == merged(member_or_null(am, bm[j].0), bm[j].1),
        forall|k: Seq<char>| !has_key(bm, k) ==> #[trigger] member_or_null(merge_members(am, bm), k)
            == member_or_null(am, k) && (member_index(merge_members(am, bm), k) is Some == member_index(am, k) is Some),
    decreases bm.len(),
{
    if bm.len() > 0 {
        let bp = bm.drop_last();
        let n = bm.len() - 1;
        let k = bm[n].0;
        let v = bm[n].1;
        assert forall|i: int, j: int| 0 <= i < j < bp.len() implies bp[i].0 != bp[j].0 by {
            assert(bp[i] == bm[i] && bp[j] == bm[j]);
        }
        lemma_merge_members_keys(am, bp);
        let mp = merge_members(am, bp);
        assert(!has_key(bp, k)) by {
            if has_key(bp, k) {
                let l = choose|l: int| 0 <= l < bp.len() && bp[l].0 == k;
                assert(bm[l].0 == k);
            }
        }
        let x = merged(member_or_null(mp, k), v);
        assert(member_or_null(mp, k) == member_or_null(am, k));
        lemma_set_member_same(mp, k, x);
        assert forall|j: int| 0 <= j < bm.len() implies member_index(merge_members(am, bm), #[trigger] bm[j].0) is Some
            && member_or_null(merge_members(am, bm), bm[j].0) == merged(member_or_null(am, bm[j].0), bm[j].1) by {
            if j < n {
                assert(bp[j] == bm[j]);
                lemma_set_member_other(mp, k, x, bm[j].0);
            }
        }
        assert forall|k2: Seq<char>| !has_key(bm, k2) implies #[trigger] member_or_null(merge_members(am, bm), k2)
            == member_or_null(am, k2) && (member_index(merge_members(am, bm), k2) is Some == member_index(am, k2) is Some) by {
            assert(k2 != k) by {
                if k2 == k {
                    assert(bm[n].0 == k2);
                }
            }
            assert(!has_key(bp, k2)) by {
                if has_key(bp, k2) {
                    let l = choose|l: int| 0 <= l < bp.len() && bp[l].0 == k2;
                    assert(bm[l].0 == k2);
                }
            }
            lemma_set_member_other(mp, k, x, k2);
        }
    }
}

/// Merging members into members that already hold, under each key, a value that merging
/// that key's new value into leaves unchanged, changes nothing.
proof fn lemma_merge_members_fixed(c: Seq<(Seq<char>, JsonModel)>, bm: Seq<(Seq<char>, JsonModel)>)
    requires
        forall|j: int| 0 <= j < bm.len() ==> member_index(c, #[trigger] bm[j].0) is Some
            && merged(member_or_null(c, bm[j].0), bm[j].1) == member_or_null(c, bm[j].0),
    ensures
        merge_members(c, bm) == c,
    decreases bm.len(),
{
    if bm.len() > 0 {
        let bp = bm.drop_last();
        let n = bm.len() - 1;
        assert forall|j: int| 0 <= j < bp.len() implies member_index(c, #[trigger] bp[j].0) is Some
            && merged(member_or_null(c, bp[j].0), bp[j].1) == member_or_null(c, bp[j].0) by {
            assert(bp[j] == bm[j]);
        }
        lemma_merge_members_fixed(c, bp);
        assert(member_index(c, bm[n].0) is Some);
        lemma_set_member_own(c, bm[n].0);
    }
}

/// Merging the same JSON value a second time changes nothing, when every object in it has
/// distinct keys: `merge_json(&mut a, &b)` twice leaves `a` as once.
pub proof fn lemma_merge_twice(a: JsonModel, b: JsonModel)
    requires
        well_keyed(b),
    ensures
        merged(merged(a, b), b) == merged(a, b),
    decreases b,
{
    match b {
        JsonModel::Object(bm) => {
            match a {
                JsonModel::Object(am) => {
                    let m = merge_members(am, bm);
                    lemma_merge_members_keys(am, bm);
                    assert forall|j: int| 0 <= j < bm.len() implies member_index(m, #[trigger] bm[j].0) is Some
                        && merged(member_or_null(m, bm[j].0), bm[j].1) == member_or_null(m, bm[j].0) by {
                        assert(well_keyed(bm[j].1));
                        lemma_merge_twice(member_or_null(am, bm[j].0), bm[j].1);
                    }
                    lemma_merge_members_fixed(m, bm);
                },
                _ => {
                    assert forall|j: int| 0 <= j < bm.len() implies member_index(bm, #[trigger] bm[j].0) is Some
                        && merged(member_or_null(bm, bm[j].0), bm[j].1) == member_or_null(bm, bm[j].0) by {
                        assert(well_keyed(bm[j].1));
                        lemma_member_index_at(bm, bm[j].0, j);
                        lemma_merge_twice(JsonModel::Null, bm[j].1);
                    }
                    lemma_merge_members_fixed(bm, bm);
                },
            }
        },
        _ => {},
    }
}

/// Some member has the key exactly when `member_index` finds one.
proof fn lemma_has_key_index(m: Seq<(Seq<char>, JsonModel)>, k: Seq<char>)
    ensures
        has_key(m, k) == member_index(m, k) is Some,
{
    lemma_member_index(m, k);
    if member_index(m, k) is Some {
        let i = member_index(m, k)->0;
        assert(m[i].0 == k);
    }
}

/// Merging an object whose keys are distinct into an object: afterwards the keys are
/// those of both; each key of the merged-in object holds its value merged into the old
/// value of the key (`null` when there was none); every other key keeps its value.
pub proof fn lemma_merge_objects(am: Seq<(Seq<char>, JsonModel)>, bm: Seq<(Seq<char>, JsonModel)>)
    requires
        distinct_keys(bm),
    ensures
        merged(JsonModel::Object(am), JsonModel::Object(bm)) == JsonModel::Object(merge_members(am, bm)),
        forall|k: Seq<char>| #[trigger] has_key(merge_members(am, bm), k) == (has_key(am, k) || has_key(bm, k)),
        forall|j: int| 0 <= j < bm.len() ==> #[trigger] member_or_null(merge_members(am, bm), bm[j].0)
            == merged(member_or_null(am, bm[j].0), bm[j].1),
        forall|k: Seq<char>| !has_key(bm, k) ==> #[trigger] member_or_null(merge_members(am, bm), k)
            == member_or_null(am, k),
{
    lemma_merge_members_keys(am, bm);
    let m = merge_members(am, bm);
    assert forall|k: Seq<char>| #[trigger] has_key(m, k) == (has_key(am, k) || has_key(bm, k)) by {
        lemma_has_key_index(m, k);
        lemma_has_key_index(am, k);
        if has_key(bm, k) {
            let j = choose|j: int| 0 <= j < bm.len() && bm[j].0 == k;
            assert(member_index(m, bm[j].0) is Some);
        } else {
            assert(member_or_null(m, k) == member_or_null(am, k));
        }
    }
    assert forall|j: int| 0 <= j < bm.len() implies #[trigger] member_or_null(m, bm[j].0)
        == merged(member_or_null(am, bm[j].0), bm[j].1) by {
        assert(member_index(m, bm[j].0) is Some);
    }
}

} // verus!
