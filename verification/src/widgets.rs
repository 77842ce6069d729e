//! The choices the popup's forms offer: dropdown options and their filtering, the
//! options for keys and stores, the store to leave when switching, and a toggle.
use vstd::prelude::*;
use crate::text::{append_text, contains_ignoring_case, seq_contains, spec_to_lowercase};
use crate::types::Key;

verus! {

/// An option of a dropdown: what it shows, what it stands for, and whether it is chosen.
pub struct DropdownOption {
    pub name: String,
    pub value: String,
    pub selected: bool,
}

impl DropdownOption {
    /// An option that is not chosen.
    pub fn new(name: String, value: String) -> (res: DropdownOption)
        ensures
            res == (DropdownOption { name, value, selected: false }),
    {
        DropdownOption { name, value, selected: false }
    }

    /// Whether the option is chosen.
    pub fn selected(&self) -> (res: bool)
        ensures
            res == self.selected,
    {
        self.selected
    }

    /// A copy of the option.
    pub fn copy(&self) -> (res: DropdownOption)
        ensures
            res == *self,
    {
        DropdownOption { name: self.name.clone(), value: self.value.clone(), selected: self.selected }
    }
}

/// The option is offered for the query: its name contains the query, ignoring case, and
/// it is not chosen unless chosen ones are included.
pub open spec fn offered(o: DropdownOption, query: Seq<char>, include_selected: bool) -> bool {
    seq_contains(spec_to_lowercase(o.name@), spec_to_lowercase(query)) && (include_selected || !o.selected)
}

/// The options offered for the query, in order.
pub open spec fn offered_options(s: Seq<DropdownOption>, query: Seq<char>, include_selected: bool) -> Seq<DropdownOption>
    decreases s.len(),
{
    if s.len() == 0 {
        Seq::empty()
    } else {
        let rest = offered_options(s.drop_last(), query, include_selected);
        if offered(s.last(), query, include_selected) { rest.push(s.last()) } else { rest }
    }
}

/// The options whose name contains the query, ignoring case; chosen ones only if
/// `include_selected`.
pub fn dropdown_filter(query: &str, options: &Vec<DropdownOption>, include_selected: bool) -> (res: Vec<DropdownOption>)
    ensures
        res@ == offered_options(options@, query@, include_selected),
{
    let mut out: Vec<DropdownOption> = Vec::new();
    let mut i: usize = 0;
    while i < options.len()
        invariant
            i <= options@.len(),
            out@ == offered_options(options@.take(i as int), query@, include_selected),
        decreases options@.len() - i,
    {
        assert(options@.take(i + 1).drop_last() =~= options@.take(i as int));
        if contains_ignoring_case(options[i].name.as_str(), query) && (include_selected || !options[i].selected) {
            out.push(options[i].copy());
        }
        i = i + 1;
    }
    assert(options@.take(options@.len() as int) =~= options@);
    out
}

/// The values of the chosen options, in order.
pub open spec fn chosen_values(s: Seq<DropdownOption>) -> Seq<String>
    decreases s.len(),
{
    if s.len() == 0 {
        Seq::empty()
    } else {
        let rest = chosen_values(s.drop_last());
        if s.last().selected { rest.push(s.last().value) } else { rest }
    }
}

/// The values of the chosen options.
pub fn selected_values(options: &Vec<DropdownOption>) -> (res: Vec<String>)
    ensures
        res@ == chosen_values(options@),
{
    let mut out: Vec<String> = Vec::new();
    let mut i: usize = 0;
    while i < options.len()
        invariant
            i <= options@.len(),
            out@ == chosen_values(options@.take(i as int)),
        decreases options@.len() - i,
    {
        assert(options@.take(i + 1).drop_last() =~= options@.take(i as int));
        if options[i].selected {
            out.push(options[i].value.clone());
        }
        i = i + 1;
    }
    assert(options@.take(options@.len() as int) =~= options@);
    out
}

/// How a key is shown: its name, its e-mail address and its id, the last two in angle
/// brackets; a missing name or address shows as nothing.
pub open spec fn key_label(k: Key) -> Seq<char> {
    let name = match k.name { Some(n) => n@, None => Seq::empty() };
    let email = match k.email { Some(e) => e@, None => Seq::empty() };
    name + " <"@ + email + "> <"@ + k.id@ + ">"@
}

/// How a key is shown.
pub fn key_option_name(k: &Key) -> (res: String)
    ensures
        res@ == key_label(*k),
{
    let mut s = String::new();
    match &k.name {
        Some(n) => append_text(&mut s, n.as_str()),
        None => {},
    }
    append_text(&mut s, " <");
    match &k.email {
        Some(e) => append_text(&mut s, e.as_str()),
        None => {},
    }
    append_text(&mut s, "> <");
    append_text(&mut s, k.id.as_str());
    append_text(&mut s, ">");
    assert(s@ =~= key_label(*k));
    s
}

/// The keys offered as options: every key, or only those with a secret part.
pub open spec fn offered_keys(keys: Seq<Key>, secret_only: bool) -> Seq<Key>
    decreases keys.len(),
{
    if keys.len() == 0 {
        Seq::empty()
    } else {
        let rest = offered_keys(keys.drop_last(), secret_only);
        if secret_only && !keys.last().has_secret { rest } else { rest.push(keys.last()) }
    }
}

/// The options for the keys, each showing the key and standing for its id, none chosen;
/// only keys with a secret part when `secret_only`.
pub fn key_options(keys: &Vec<Key>, secret_only: bool) -> (res: Vec<DropdownOption>)
    ensures
        res@.len() == offered_keys(keys@, secret_only).len(),
        forall|i: int| 0 <= i < res@.len() ==> {
            let k = #[trigger] offered_keys(keys@, secret_only)[i];
            &&& res@[i].name@ == key_label(k)
            &&& res@[i].value == k.id
            &&& !res@[i].selected
        },
{
    let mut out: Vec<DropdownOption> = Vec::new();
    let mut i: usize = 0;
    while i < keys.len()
        invariant
            i <= keys@.len(),
            out@.len() == offered_keys(keys@.take(i as int), secret_only).len(),
            forall|j: int| 0 <= j < out@.len() ==> {
                let k = #[trigger] offered_keys(keys@.take(i as int), secret_only)[j];
                &&& out@[j].name@ == key_label(k)
                &&& out@[j].value == k.id
                &&& !out@[j].selected
            },
        decreases keys@.len() - i,
    {
        let ghost before = offered_keys(keys@.take(i as int), secret_only);
        assert(keys@.take(i + 1).drop_last() =~= keys@.take(i as int));
        if !(secret_only && !keys[i].has_secret) {
            let name = key_option_name(&keys[i]);
            out.push(DropdownOption::new(name, keys[i].id.clone()));
            assert forall|j: int| 0 <= j < out@.len() implies {
                let k = #[trigger] offered_keys(keys@.take(i + 1), secret_only)[j];
                &&& out@[j].name@ == key_label(k)
                &&& out@[j].value == k.id
                &&& !out@[j].selected
            } by {
                if j < before.len() {
                    assert(offered_keys(keys@.take(i + 1), secret_only)[j] == before[j]);
                }
            }
        }
        i = i + 1;
    }
    assert(keys@.take(keys@.len() as int) =~= keys@);
    out
}

/// The options for the stores, each showing its id and standing for it, the current store
/// chosen.
pub fn store_options(store_ids: &Vec<String>, current: &Option<String>) -> (res: Vec<DropdownOption>)
    ensures
        res@.len() == store_ids@.len(),
        forall|i: int| 0 <= i < res@.len() ==> {
            &&& (#[trigger] res@[i]).name == store_ids@[i]
            &&& res@[i].value == store_ids@[i]
            &&& res@[i].selected == (current matches Some(c) && c@ == store_ids@[i]@)
        },
{
    let mut out: Vec<DropdownOption> = Vec::new();
    let mut i: usize = 0;
    while i < store_ids.len()
        invariant
            i <= store_ids@.len(),
            out@.len() == i,
            forall|j: int| 0 <= j < i ==> {
                &&& (#[trigger] out@[j]).name == store_ids@[j]
                &&& out@[j].value == store_ids@[j]
                &&& out@[j].selected == (current matches Some(c) && c@ == store_ids@[j]@)
            },
        decreases store_ids@.len() - i,
    {
        let selected = match current {
            Some(c) => *c == store_ids[i],
            None => false,
        };
        out.push(DropdownOption { name: store_ids[i].clone(), value: store_ids[i].clone(), selected });
        i = i + 1;
    }
    out
}

/// The store to leave when switching to `chosen`: the current store, if it is another.
pub fn store_to_leave(current: &Option<String>, chosen: &String) -> (res: Option<String>)
    ensures
        match current {
            Some(c) => if c@ != chosen@ { res == Some(*c) } else { res is None },
            None => res is None,
        },
{
    match current {
        Some(c) => if *c != *chosen {
            Some(c.clone())
        } else {
            None
        },
        None => None,
    }
}

/// The name a new store is proposed with: `default` when there is no store yet, else
/// nothing.
pub fn proposed_store_name(store_ids: &Vec<String>) -> (res: String)
    ensures
        store_ids@.len() == 0 ==> res@ == "default"@,
        store_ids@.len() > 0 ==> res@.len() == 0,
{
    if store_ids.len() > 0 {
        String::new()
    } else {
        "default".to_string()
    }
}

/// A flag that a control turns on and off.
pub struct BoolState {
    pub value: bool,
}

/// What a flag can be told: to flip, or to take a value.
pub enum BoolStateAction {
    ToggleAction,
    SetAction(bool),
}

impl BoolState {
    /// A flag with the value.
    pub fn new(value: bool) -> (res: BoolState)
        ensures
            res.value == value,
    {
        BoolState { value }
    }

    /// The flag after the action: flipped, or set.
    pub fn reduce(&self, action: BoolStateAction) -> (res: BoolState)
        ensures
            res.value == match action {
                BoolStateAction::ToggleAction => !self.value,
                BoolStateAction::SetAction(v) => v,
            },
    {
        match action {
            BoolStateAction::ToggleAction => BoolState { value: !self.value },
            BoolStateAction::SetAction(v) => BoolState { value: v },
        }
    }
}


/// The position of the first option whose name is the text.
pub open spec fn first_named(s: Seq<DropdownOption>, name: Seq<char>) -> Option<int> {
    if exists|i: int| 0 <= i < s.len() && s[i].name@ == name && forall|j: int| 0 <= j < i ==> s[j].name@ != name {
        Some(choose|i: int| 0 <= i < s.len() && s[i].name@ == name && forall|j: int| 0 <= j < i ==> s[j].name@ != name)
    } else {
        None
    }
}

/// The options with the choice of the one at position `i` flipped.
pub open spec fn flipped(s: Seq<DropdownOption>, i: int) -> Seq<DropdownOption> {
    s.update(i, DropdownOption { selected: !s[i].selected, ..s[i] })
}

/// The options with exactly those whose value is the text chosen.
pub open spec fn chosen_by_value(s: Seq<DropdownOption>, typed: Seq<char>) -> Seq<DropdownOption> {
    s.map_values(|o: DropdownOption| DropdownOption { selected: o.value@ == typed, ..o })
}

/// The options with the one at position `i` chosen or not.
fn set_chosen(options: &mut Vec<DropdownOption>, i: usize, selected: bool)
    requires
        i < old(options)@.len(),
    ensures
        final(options)@ == old(options)@.update(i as int, DropdownOption { selected, ..old(options)@[i as int] }),
{
    let mut o = options.remove(i);
    o.selected = selected;
    options.insert(i, o);
    assert(final(options)@ =~= old(options)@.update(i as int, DropdownOption { selected, ..old(options)@[i as int] }));
}

/// What typing a text that must be an option does: with several choices allowed, the
/// first option named by the text is chosen if it was not; with one, exactly the options
/// whose value is the text are chosen. Returns the positions of the options whose choice
/// changed, in order.
pub fn force_choice(options: &mut Vec<DropdownOption>, typed: &String, multiple: bool) -> (res: Vec<usize>)
    ensures
        final(options)@.len() == old(options)@.len(),
        multiple ==> match first_named(old(options)@, typed@) {
            Some(i) => if old(options)@[i].selected {
                final(options)@ == old(options)@ && res@.len() == 0
            } else {
                final(options)@ == old(options)@.update(i, DropdownOption { selected: true, ..old(options)@[i] })
                    && res@ == seq![i as usize]
            },
            None => final(options)@ == old(options)@ && res@.len() == 0,
        },
        !multiple ==> {
            &&& final(options)@ == chosen_by_value(old(options)@, typed@)
            &&& forall|k: int| 0 <= k < res@.len() ==> res@[k] < old(options)@.len()
            &&& forall|k: int| 0 <= k < old(options)@.len() ==> (res@.contains(k as usize) <==> old(options)@[k].selected
                != (old(options)@[k].value@ == typed@))
            &&& forall|a: int, b: int| 0 <= a < b < res@.len() ==> res@[a] < res@[b]
        },
{
    let mut changed: Vec<usize> = Vec::new();
    if multiple {
        let mut i: usize = 0;
        while i < options.len()
            invariant
                multiple,
                i <= options@.len(),
                options@ == old(options)@,
                changed@.len() == 0,
                forall|j: int| 0 <= j < i ==> options@[j].name@ != typed@,
            decreases options@.len() - i,
        {
            if options[i].name == *typed {
                proof {
                    let o = old(options)@;
                    let c = choose|c: int| 0 <= c < o.len() && o[c].name@ == typed@ && forall|j: int| 0 <= j < c ==> o[j].name@ != typed@;
                    assert(0 <= i < o.len() && o[i as int].name@ == typed@ && forall|j: int| 0 <= j < i ==> o[j].name@ != typed@);
                    if c < i {
                        assert(o[c].name@ != typed@);
                    } else if c > i {
                        assert(o[i as int].name@ != typed@);
                    }
                }
                if !options[i].selected {
                    set_chosen(options, i, true);
                    changed.push(i);
                    assert(changed@ =~= seq![i]);
                }
                return changed;
            }
            i = i + 1;
        }
        proof {
            let o = old(options)@;
            if exists|c: int| 0 <= c < o.len() && o[c].name@ == typed@ && forall|j: int| 0 <= j < c ==> o[j].name@ != typed@ {
                let c = choose|c: int| 0 <= c < o.len() && o[c].name@ == typed@ && forall|j: int| 0 <= j < c ==> o[j].name@ != typed@;
                assert(o[c].name@ != typed@);
            }
        }
        changed
    } else {
        let mut i: usize = 0;
        while i < options.len()
            invariant
                i <= options@.len(),
                options@.len() == old(options)@.len(),
                forall|k: int| 0 <= k < i ==> #[trigger] options@[k] == (DropdownOption {
                    selected: old(options)@[k].value@ == typed@,
                    ..old(options)@[k]
                }),
                forall|k: int| i <= k < options@.len() ==> options@[k] == old(options)@[k],
                forall|k: int| 0 <= k < changed@.len() ==> changed@[k] < i,
                forall|k: int| 0 <= k < i ==> (changed@.contains(k as usize) <==> old(options)@[k].selected
                    != (old(options)@[k].value@ == typed@)),
                forall|a: int, b: int| 0 <= a < b < changed@.len() ==> changed@[a] < changed@[b],
            decreases options@.len() - i,
        {
            let now = options[i].value == *typed;
            let before = options[i].selected;
            let ghost prev = changed@;
            set_chosen(options, i, now);
            if before != now {
                changed.push(i);
            }
            proof {
                assert forall|k: int| 0 <= k < i + 1 implies (changed@.contains(k as usize) <==> old(options)@[k].selected
                    != (old(options)@[k].value@ == typed@)) by {
                    if k < i {
                        if changed@.contains(k as usize) {
                            let m = choose|m: int| 0 <= m < changed@.len() && changed@[m] == k as usize;
                            if m < prev.len() {
                                assert(prev[m] == k as usize);
                            }
                        }
                        if prev.contains(k as usize) {
                            let m = choose|m: int| 0 <= m < prev.len() && prev[m] == k as usize;
                            assert(changed@[m] == k as usize);
                        }
                    } else {
                        if changed@.contains(k as usize) {
                            let m = choose|m: int| 0 <= m < changed@.len() && changed@[m] == k as usize;
                            if m < prev.len() {
                                assert(prev[m] < i);
                            }
                        }
                        if before != now {
                            assert(changed@[prev.len() as int] == i);
                        }
                    }
                }
            }
            i = i + 1;
        }
        assert(options@ =~= chosen_by_value(old(options)@, typed@));
        changed
    }
}

/// What clicking an option does: its choice flips; with one choice allowed, the search
/// text becomes its name and the list closes, with several, the search text is cleared
/// and the list stays. Returns the new search text and whether the list stays open.
pub fn click_option(options: &mut Vec<DropdownOption>, i: usize, multiple: bool) -> (res: (String, bool))
    requires
        i < old(options)@.len(),
    ensures
        final(options)@ == flipped(old(options)@, i as int),
        multiple ==> res.0@.len() == 0 && res.1,
        !multiple ==> res.0 == old(options)@[i as int].name && !res.1,
{
    let selected = !options[i].selected;
    let name = options[i].name.clone();
    set_chosen(options, i, selected);
    if multiple {
        (String::new(), true)
    } else {
        (name, false)
    }
}

/// Clicking the same option twice leaves every choice as it was.
pub proof fn lemma_click_twice(s: Seq<DropdownOption>, i: int)
    requires
        0 <= i < s.len(),
    ensures
        flipped(flipped(s, i), i) == s,
{
    assert(flipped(flipped(s, i), i) =~= s);
}

/// With one choice allowed, typing the same value again changes no choice: the options
/// are those the first time left.
pub proof fn lemma_typed_value_twice(s: Seq<DropdownOption>, typed: Seq<char>)
    ensures
        chosen_by_value(chosen_by_value(s, typed), typed) == chosen_by_value(s, typed),
{
    assert(chosen_by_value(chosen_by_value(s, typed), typed) =~= chosen_by_value(s, typed));
}

} // verus!
