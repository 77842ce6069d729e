//! Which input fields of a page the content script fills: the username field and the
//! password field, found by the type of the page's inputs and by a list of usual element
//! ids.
use vstd::prelude::*;

verus! {

/// The type of an input element that the search looks for.
pub enum InputElementType {
    Text,
    Email,
    Password,
}

/// The value of the `type` attribute of such an input.
pub open spec fn input_type_name(t: InputElementType) -> Seq<char> {
    match t {
        InputElementType::Text => "text"@,
        InputElementType::Email => "email"@,
        InputElementType::Password => "password"@,
    }
}

impl InputElementType {
    /// The value of the `type` attribute of such an input.
    pub fn to_string(&self) -> (res: &'static str)
        ensures
            res@ == input_type_name(*self),
    {
        proof {
            reveal_strlit("text");
            reveal_strlit("email");
            reveal_strlit("password");
        }
        match self {
            InputElementType::Text => "text",
            InputElementType::Email => "email",
            InputElementType::Password => "password",
        }
    }
}

/// What the page holds under an element id.
pub enum CandidateElement {
    /// No element has the id.
    Absent,
    /// An input element has the id.
    Input,
    /// Another element has the id.
    Other,
}

/// The ids a username field usually has, in the order they are tried.
pub open spec fn username_ids() -> Seq<Seq<char>> {
    seq![
        "username"@, "email"@, "user"@, "login"@, "account"@, "customer_email"@, "user_id"@, "id"@,
        "user_name"@, "user_email"@, "user"@, "identifierId"@,
    ]
}

/// The ids a password field usually has, in the order they are tried.
pub open spec fn password_ids() -> Seq<Seq<char>> {
    seq!["password"@, "pass"@, "pwd"@, "secret"@, "token"@, "auth"@]
}

/// The texts of a sequence of string slices.
pub open spec fn str_texts(s: Seq<&str>) -> Seq<Seq<char>> {
    s.map_values(|x: &str| x@)
}

/// The ids a username field usually has, in the order they are tried.
pub fn username_candidate_ids() -> (res: Vec<&'static str>)
    ensures
        str_texts(res@) == username_ids(),
{
    proof {
        reveal_strlit("username");
        reveal_strlit("email");
        reveal_strlit("user");
        reveal_strlit("login");
        reveal_strlit("account");
        reveal_strlit("customer_email");
        reveal_strlit("user_id");
        reveal_strlit("id");
        reveal_strlit("user_name");
        reveal_strlit("user_email");
        reveal_strlit("identifierId");
    }
    let res = vec![
        "username", "email", "user", "login", "account", "customer_email", "user_id", "id", "user_name",
        "user_email", "user", "identifierId",
    ];
    assert(str_texts(res@) =~= username_ids());
    res
}

/// The ids a password field usually has, in the order they are tried.
pub fn password_candidate_ids() -> (res: Vec<&'static str>)
    ensures
        str_texts(res@) == password_ids(),
{
    proof {
        reveal_strlit("password");
        reveal_strlit("pass");
        reveal_strlit("pwd");
        reveal_strlit("secret");
        reveal_strlit("token");
        reveal_strlit("auth");
    }
    let res = vec!["password", "pass", "pwd", "secret", "token", "auth"];
    assert(str_texts(res@) =~= password_ids());
    res
}

/// The positions, in order, of the inputs whose type is `t`.
pub open spec fn positions_of_type(types: Seq<String>, t: InputElementType) -> Seq<usize>
    decreases types.len(),
{
    if types.len() == 0 {
        Seq::empty()
    } else {
        let rest = positions_of_type(types.drop_last(), t);
        if types.last()@ == input_type_name(t) {
            rest.push((types.len() - 1) as usize)
        } else {
            rest
        }
    }
}

/// The positions, in order, of the page's inputs whose type is `t`, given the type of
/// each input; `None` when there is none.
pub fn find_input_element_with_type(types: &Vec<String>, t: InputElementType) -> (res: Option<Vec<usize>>)
    ensures
        match res {
            Some(v) => v@ == positions_of_type(types@, t) && v@.len() > 0,
            None => positions_of_type(types@, t).len() == 0,
        },
{
    let name = t.to_string();
    let mut res: Vec<usize> = Vec::new();
    let mut i: usize = 0;
    while i < types.len()
        invariant
            i <= types@.len(),
            name@ == input_type_name(t),
            res@ == positions_of_type(types@.take(i as int), t),
        decreases types@.len() - i,
    {
        assert(types@.take(i + 1).drop_last() =~= types@.take(i as int));
        if crate::text::same_text(types[i].as_str(), name) {
            res.push(i);
        }
        i = i + 1;
    }
    assert(types@.take(types@.len() as int) =~= types@);
    if res.len() > 0 {
        Some(res)
    } else {
        None
    }
}

/// The page holds no element under the candidates before position `i`.
pub open spec fn absent_before(found: Seq<CandidateElement>, i: int) -> bool {
    forall|j: int| 0 <= j < i ==> #[trigger] found[j] is Absent
}

/// Position `i` is the first candidate under which the page holds an element.
pub open spec fn is_first_present(found: Seq<CandidateElement>, i: int) -> bool {
    0 <= i < found.len() && !(found[i] is Absent) && absent_before(found, i)
}

/// The first candidate under which the page holds an element, if any.
pub open spec fn first_present(found: Seq<CandidateElement>) -> Option<int> {
    if exists|i: int| #[trigger] is_first_present(found, i) {
        Some(choose|i: int| #[trigger] is_first_present(found, i))
    } else {
        None
    }
}

/// The candidate whose element is taken: the first candidate id the page holds an element
/// under, if that element is an input; else nothing.
pub open spec fn candidate_choice(found: Seq<CandidateElement>) -> Option<int> {
    match first_present(found) {
        Some(i) => if found[i] is Input {
            Some(i)
        } else {
            None
        },
        None => None,
    }
}

/// The first candidate the page holds an element under is the one at `i` when every
/// earlier one is absent.
proof fn lemma_first_present_at(found: Seq<CandidateElement>, i: int)
    requires
        is_first_present(found, i),
    ensures
        first_present(found) == Some(i),
{
    let c = choose|c: int| #[trigger] is_first_present(found, c);
    assert(is_first_present(found, c));
    if c < i {
        assert(found[c] is Absent);
    } else if c > i {
        assert(found[i] is Absent);
    }
}

/// No candidate is present when every one is absent.
proof fn lemma_none_present(found: Seq<CandidateElement>)
    requires
        absent_before(found, found.len() as int),
    ensures
        first_present(found) is None,
{
    if exists|c: int| #[trigger] is_first_present(found, c) {
        let c = choose|c: int| #[trigger] is_first_present(found, c);
        assert(found[c] is Absent);
    }
}

/// Which candidate id gives the field, given what the page holds under each candidate in
/// order: the first that the page holds an element under, if it is an input.
pub fn find_input_element_with_candidate_ids(found: &Vec<CandidateElement>) -> (res: Option<usize>)
    ensures
        match res {
            Some(i) => candidate_choice(found@) == Some(i as int),
            None => candidate_choice(found@) is None,
        },
{
    let mut i: usize = 0;
    while i < found.len()
        invariant
            i <= found@.len(),
            absent_before(found@, i as int),
        decreases found@.len() - i,
    {
        match found[i] {
            CandidateElement::Absent => {},
            CandidateElement::Input => {
                proof { lemma_first_present_at(found@, i as int); }
                return Some(i);
            },
            CandidateElement::Other => {
                proof { lemma_first_present_at(found@, i as int); }
                return None;
            },
        }
        i = i + 1;
    }
    proof { lemma_none_present(found@); }
    None
}

/// Where a field is found: the input at a position among the page's inputs, or the
/// element under a candidate id.
pub enum FieldLocation {
    Input(usize),
    Candidate(usize),
}

/// The password field: the first password input of the page, else the element of the
/// first candidate id the page holds, if it is an input.
pub open spec fn password_location(types: Seq<String>, found: Seq<CandidateElement>) -> Option<FieldLocation> {
    let by_type = positions_of_type(types, InputElementType::Password);
    if by_type.len() > 0 {
        Some(FieldLocation::Input(by_type[0]))
    } else {
        match candidate_choice(found) {
            Some(i) => Some(FieldLocation::Candidate(i as usize)),
            None => None,
        }
    }
}

/// The username field: the element of the first candidate id the page holds, if it is
/// an input, else the first email input of the page.
pub open spec fn username_location(types: Seq<String>, found: Seq<CandidateElement>) -> Option<FieldLocation> {
    match candidate_choice(found) {
        Some(i) => Some(FieldLocation::Candidate(i as usize)),
        None => {
            let by_type = positions_of_type(types, InputElementType::Email);
            if by_type.len() > 0 {
                Some(FieldLocation::Input(by_type[0]))
            } else {
                None
            }
        },
    }
}

/// Where the password field is, given the type of each input of the page and what the
/// page holds under each password candidate id.
pub fn find_password_input_element(types: &Vec<String>, found: &Vec<CandidateElement>) -> (res: Option<FieldLocation>)
    ensures
        res == password_location(types@, found@),
{
    match find_input_element_with_type(types, InputElementType::Password) {
        Some(v) => Some(FieldLocation::Input(v[0])),
        None => match find_input_element_with_candidate_ids(found) {
            Some(i) => Some(FieldLocation::Candidate(i)),
            None => None,
        },
    }
}

/// Where the username field is, given the type of each input of the page and what the
/// page holds under each username candidate id.
pub fn find_username_input_element(types: &Vec<String>, found: &Vec<CandidateElement>) -> (res: Option<FieldLocation>)
    ensures
        res == username_location(types@, found@),
{
    match find_input_element_with_candidate_ids(found) {
        Some(i) => Some(FieldLocation::Candidate(i)),
        None => match find_input_element_with_type(types, InputElementType::Email) {
            Some(v) => Some(FieldLocation::Input(v[0])),
            None => None,
        },
    }
}

} // verus!
