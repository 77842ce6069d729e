//! General helpers shared by every component of the extension.
use vstd::prelude::*;
use rand::Rng;
use crate::text::{contains_ignoring_case, seq_contains, spec_to_lowercase};

verus! {

/// The extension storage areas that state is saved to.
pub enum StorageArea {
    Local,
    Sync,
    Session,
}

/// The option is kept by a case-insensitive search for `query`.
pub open spec fn option_matches(option: Seq<char>, query: Seq<char>) -> bool {
    seq_contains(spec_to_lowercase(option), spec_to_lowercase(query))
}

/// The options, in order, that `option_matches` keeps.
pub open spec fn matching_options<'a>(options: Seq<&'a str>, query: Seq<char>) -> Seq<&'a str>
    decreases options.len(),
{
    if options.len() == 0 {
        Seq::empty()
    } else {
        let rest = matching_options(options.drop_last(), query);
        if option_matches(options.last()@, query) {
            rest.push(options.last())
        } else {
            rest
        }
    }
}

/// Keeps, in order, the options that contain `query` when both are lower-cased.
pub fn string_filter<'a, 'b>(options: Vec<&'a str>, query: &'b str) -> (res: Vec<&'a str>)
    ensures
        res@ == matching_options(options@, query@),
{
    let mut res: Vec<&'a str> = Vec::new();
    let mut i: usize = 0;
    while i < options.len()
        invariant
            i <= options@.len(),
            res@ == matching_options(options@.take(i as int), query@),
        decreases options@.len() - i,
    {
        let o = options[i];
        let keep = contains_ignoring_case(o, query);
        assert(options@.take(i + 1).drop_last() =~= options@.take(i as int));
        assert(options@.take(i + 1).last() == o);
        if keep {
            res.push(o);
        }
        i = i + 1;
    }
    assert(options@.take(options@.len() as int) =~= options@);
    res
}

/// One of the 62 characters that acknowledgements are made of: an ASCII letter or digit.
pub open spec fn is_alphanumeric(c: char) -> bool {
    ('A' <= c && c <= 'Z') || ('a' <= c && c <= 'z') || ('0' <= c && c <= '9')
}

/// The length of an acknowledgement.
pub const ACKNOWLEDGEMENT_LEN: usize = 30;

/// A request acknowledgement: 30 ASCII letters and digits.
pub open spec fn is_acknowledgement(s: Seq<char>) -> bool {
    &&& s.len() == ACKNOWLEDGEMENT_LEN
    &&& forall|i: int| 0 <= i < s.len() ==> #[trigger] is_alphanumeric(s[i])
}

/// Calls `rand::Rng::sample` on the thread's generator with the distribution
/// `rand::distributions::Alphanumeric`, whose source draws uniformly from the 62 ASCII
/// letters and digits, and converts the drawn byte with `char::from`. Which character
/// comes out is chance.
#[verifier::external_body]
fn random_alphanumeric() -> (res: char)
    ensures
        is_alphanumeric(res),
{
    char::from(rand::thread_rng().sample(rand::distributions::Alphanumeric))
}

/// Calls `String::push`, which appends one character.
#[verifier::external_body]
pub(crate) fn push_char(s: &mut String, c: char)
    ensures
        final(s)@ == old(s)@.push(c),
{
    s.push(c)
}

/// A fresh random acknowledgement: 30 ASCII letters and digits that tag a request, so that
/// its response can be matched to it.
pub fn create_request_acknowledgement() -> (res: String)
    ensures
        is_acknowledgement(res@),
{
    let mut res = String::new();
    let mut i: usize = 0;
    while i < ACKNOWLEDGEMENT_LEN
        invariant
            i <= ACKNOWLEDGEMENT_LEN,
            res@.len() == i,
            forall|k: int| 0 <= k < i ==> #[trigger] is_alphanumeric(res@[k]),
        decreases ACKNOWLEDGEMENT_LEN - i,
    {
        let c = random_alphanumeric();
        push_char(&mut res, c);
        i = i + 1;
    }
    res
}


/// The domain of a URL: the host of the address as `url::Url::parse` reads it, when the
/// address parses and its host is a domain (not an IP address), else nothing.
pub uninterp spec fn url_domain(addr: Seq<char>) -> Option<Seq<char>>;

/// Calls `url::Url::parse` and then `Url::domain`; the result is named by `url_domain`.
#[verifier::external_body]
fn parse_domain(addr: &str) -> (res: Option<String>)
    ensures
        match res {
            Some(d) => url_domain(addr@) == Some(d@),
            None => url_domain(addr@) is None,
        },
{
    match url::Url::parse(addr) {
        Ok(u) => match u.domain() {
            Some(d) => Some(d.to_string()),
            None => None,
        },
        Err(_) => None,
    }
}

/// The domain of an address that parses as a URL with a domain host.
pub fn get_domain_name(addr: &String) -> (res: String)
    requires
        url_domain(addr@) is Some,
    ensures
        Some(res@) == url_domain(addr@),
{
    parse_domain(addr.as_str()).unwrap()
}

/// The domain of an address, if it parses as a URL with a domain host.
pub fn try_get_domain_name(addr: &String) -> (res: Option<String>)
    ensures
        match res {
            Some(d) => url_domain(addr@) == Some(d@),
            None => url_domain(addr@) is None,
        },
{
    match parse_domain(addr.as_str()) {
        Some(_) => Some(get_domain_name(addr)),
        None => None,
    }
}

} // verus!
