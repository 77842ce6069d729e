//! Which accounts are offered and in what order: the accounts of the page's domain, and
//! accounts ranked by how well a field of theirs matches what the user typed, by the
//! fuzzy score of `sublime_fuzzy`, lowest score first, ties in the order they came in.
use vstd::prelude::*;
use crate::types::Account;

verus! {

/// The score of the best fuzzy match of `query` in `target`, ignoring case, if there is
/// a match: what `sublime_fuzzy::best_match` returns, by `Match::score`.
pub uninterp spec fn fuzzy_score(query: Seq<char>, target: Seq<char>) -> Option<isize>;

/// Calls `sublime_fuzzy::best_match` and takes the score of the match. The score is named
/// by `fuzzy_score`; the crate's source returns no match for an empty query or an empty
/// target.
#[verifier::external_body]
fn best_match_score(query: &str, target: &str) -> (res: Option<isize>)
    ensures
        res == fuzzy_score(query@, target@),
        query@.len() == 0 ==> res is None,
        target@.len() == 0 ==> res is None,
{
    match sublime_fuzzy::best_match(query, target) {
        Some(m) => Some(m.score()),
        None => None,
    }
}

/// The field of an account that a query is matched against.
pub enum RankField {
    Id,
    Username,
    Domain,
}

/// The text of the field: the id, the username, or the domain (empty when there is none).
pub open spec fn field_text(a: Account, f: RankField) -> Seq<char> {
    match f {
        RankField::Id => a.id@,
        RankField::Username => a.username@,
        RankField::Domain => match a.domain {
            Some(d) => d@,
            None => Seq::empty(),
        },
    }
}

/// The text of the field.
fn field_of<'a>(a: &'a Account, f: &RankField) -> (res: &'a str)
    ensures
        res@ == field_text(*a, *f),
{
    match f {
        RankField::Id => a.id.as_str(),
        RankField::Username => a.username.as_str(),
        RankField::Domain => match &a.domain {
            Some(d) => d.as_str(),
            None => {
                proof {
                    reveal_strlit("");
                }
                ""
            },
        },
    }
}

/// The sequence with `x` inserted after the last element whose score is at most its own.
pub open spec fn insert_by_score(s: Seq<(isize, Account)>, x: (isize, Account)) -> Seq<(isize, Account)>
    decreases s.len(),
{
    if s.len() == 0 {
        seq![x]
    } else if s.last().0 <= x.0 {
        s.push(x)
    } else {
        insert_by_score(s.drop_last(), x).push(s.last())
    }
}

/// The scored accounts ordered by score, lowest first; equal scores keep their order.
pub open spec fn order_by_score(s: Seq<(isize, Account)>) -> Seq<(isize, Account)>
    decreases s.len(),
{
    if s.len() == 0 {
        Seq::empty()
    } else {
        insert_by_score(order_by_score(s.drop_last()), s.last())
    }
}

/// The accounts of scored pairs.
pub open spec fn accounts_of(s: Seq<(isize, Account)>) -> Seq<Account> {
    s.map_values(|p: (isize, Account)| p.1)
}

/// The scores are in ascending order.
pub open spec fn ascending(s: Seq<(isize, Account)>) -> bool {
    forall|i: int, j: int| 0 <= i < j < s.len() ==> s[i].0 <= s[j].0
}

/// Inserting at the position after the last element whose score is at most the new one.
proof fn lemma_insert_at(s: Seq<(isize, Account)>, x: (isize, Account), j: int)
    requires
        0 <= j <= s.len(),
        forall|k: int| j <= k < s.len() ==> s[k].0 > x.0,
        j > 0 ==> s[j - 1].0 <= x.0,
    ensures
        insert_by_score(s, x) == s.take(j).push(x) + s.skip(j),
    decreases s.len(),
{
    if s.len() == 0 {
        assert(s.take(j).push(x) + s.skip(j) =~= seq![x]);
    } else if j == s.len() {
        assert(s.take(j).push(x) + s.skip(j) =~= s.push(x));
    } else {
        lemma_insert_at(s.drop_last(), x, j);
        assert(s.drop_last().take(j) =~= s.take(j));
        assert(s.take(j).push(x) + s.skip(j) =~= (s.drop_last().take(j).push(x) + s.drop_last().skip(j)).push(
            s.last(),
        ));
    }
}

/// Inserting keeps the scores ascending.
proof fn lemma_insert_ascending(s: Seq<(isize, Account)>, x: (isize, Account))
    requires
        ascending(s),
    ensures
        ascending(insert_by_score(s, x)),
        insert_by_score(s, x).len() == s.len() + 1,
    decreases s.len(),
{
    if s.len() > 0 && s.last().0 > x.0 {
        lemma_insert_ascending(s.drop_last(), x);
        lemma_insert_members(s.drop_last(), x);
    }
}

/// The elements after an insertion are the old ones and the new one.
proof fn lemma_insert_members(s: Seq<(isize, Account)>, x: (isize, Account))
    ensures
        forall|i: int| 0 <= i < insert_by_score(s, x).len() ==> #[trigger] insert_by_score(s, x)[i] == x || exists|k: int|
            0 <= k < s.len() && s[k] == insert_by_score(s, x)[i],
    decreases s.len(),
{
    if s.len() > 0 && s.last().0 > x.0 {
        lemma_insert_members(s.drop_last(), x);
        let t = insert_by_score(s, x);
        let r = insert_by_score(s.drop_last(), x);
        assert forall|i: int| 0 <= i < t.len() implies #[trigger] t[i] == x || exists|k: int| 0 <= k < s.len() && s[k] == t[i] by {
            if i < r.len() {
                assert(t[i] == r[i]);
                if r[i] != x {
                    let k = choose|k: int| 0 <= k < s.drop_last().len() && s.drop_last()[k] == r[i];
                    assert(s[k] == t[i]);
                }
            } else {
                assert(s[s.len() - 1] == t[i]);
            }
        }
    } else if s.len() > 0 {
        let t = insert_by_score(s, x);
        assert forall|i: int| 0 <= i < t.len() implies #[trigger] t[i] == x || exists|k: int| 0 <= k < s.len() && s[k] == t[i] by {
            if i < s.len() {
                assert(s[i] == t[i]);
            }
        }
    }
}

/// Ordering by score leaves the scores ascending.
pub proof fn lemma_order_ascending(s: Seq<(isize, Account)>)
    ensures
        ascending(order_by_score(s)),
        order_by_score(s).len() == s.len(),
    decreases s.len(),
{
    if s.len() > 0 {
        lemma_order_ascending(s.drop_last());
        lemma_insert_ascending(order_by_score(s.drop_last()), s.last());
    }
}

/// Orders scored accounts by score, lowest first, keeping the order of equal scores.
pub fn order_scored(scored: Vec<(isize, Account)>) -> (res: Vec<Account>)
    ensures
        res@ == accounts_of(order_by_score(scored@)),
{
    let ghost all = scored@;
    let mut rest = scored;
    let mut sorted: Vec<(isize, Account)> = Vec::new();
    let n = rest.len();
    let mut i: usize = 0;
    while i < n
        invariant
            n == all.len(),
            i <= n,
            rest@ == all.subrange(i as int, n as int),
            sorted@ == order_by_score(all.take(i as int)),
            ascending(sorted@),
        decreases n - i,
    {
        let x = rest.remove(0);
        assert(x == all[i as int]);
        let mut j: usize = sorted.len();
        while j > 0 && sorted[j - 1].0 > x.0
            invariant
                j <= sorted@.len(),
                forall|k: int| j <= k < sorted@.len() ==> sorted@[k].0 > x.0,
            decreases j,
        {
            j = j - 1;
        }
        let ghost prev = sorted@;
        proof {
            lemma_insert_at(prev, x, j as int);
            lemma_insert_ascending(prev, x);
            assert(all.take(i + 1).drop_last() =~= all.take(i as int));
            assert(all.take(i + 1).last() == x);
        }
        sorted.insert(j, x);
        assert(sorted@ =~= prev.take(j as int).push(x) + prev.skip(j as int));
        i = i + 1;
        assert(rest@ =~= all.subrange(i as int, n as int));
    }
    assert(all.take(n as int) =~= all);
    let mut res: Vec<Account> = Vec::new();
    let ghost ordered = sorted@;
    let m = sorted.len();
    let mut k: usize = 0;
    while k < m
        invariant
            m == ordered.len(),
            k <= m,
            sorted@ == ordered.subrange(k as int, m as int),
            res@ == accounts_of(ordered.take(k as int)),
        decreases m - k,
    {
        let (_, a) = sorted.remove(0);
        res.push(a);
        k = k + 1;
        assert(res@ =~= accounts_of(ordered.take(k as int)));
        assert(sorted@ =~= ordered.subrange(k as int, m as int));
    }
    assert(ordered.take(m as int) =~= ordered);
    res
}


/// The accounts whose field matches the query, each with its score, in order.
pub open spec fn scored(accs: Seq<Account>, query: Seq<char>, f: RankField) -> Seq<(isize, Account)>
    decreases accs.len(),
{
    if accs.len() == 0 {
        Seq::empty()
    } else {
        let rest = scored(accs.drop_last(), query, f);
        match fuzzy_score(query, field_text(accs.last(), f)) {
            Some(sc) => rest.push((sc, accs.last())),
            None => rest,
        }
    }
}

/// The accounts whose field does not match the query, in order.
pub open spec fn unmatched(accs: Seq<Account>, query: Seq<char>, f: RankField) -> Seq<Account>
    decreases accs.len(),
{
    if accs.len() == 0 {
        Seq::empty()
    } else {
        let rest = unmatched(accs.drop_last(), query, f);
        match fuzzy_score(query, field_text(accs.last(), f)) {
            Some(_) => rest,
            None => rest.push(accs.last()),
        }
    }
}

/// Scores the field of each account against the query: the matching accounts with
/// their scores, and the others, each in order.
pub fn score_accounts(accounts: Vec<Account>, query: &str, f: &RankField) -> (res: (Vec<(isize, Account)>, Vec<Account>))
    ensures
        res.0@ == scored(accounts@, query@, *f),
        res.1@ == unmatched(accounts@, query@, *f),
        query@.len() == 0 ==> res.0@.len() == 0 && res.1@ == accounts@,
{
    let ghost all = accounts@;
    let mut rest = accounts;
    let mut hits: Vec<(isize, Account)> = Vec::new();
    let mut misses: Vec<Account> = Vec::new();
    let n = rest.len();
    let mut i: usize = 0;
    while i < n
        invariant
            n == all.len(),
            i <= n,
            rest@ == all.subrange(i as int, n as int),
            hits@ == scored(all.take(i as int), query@, *f),
            misses@ == unmatched(all.take(i as int), query@, *f),
            query@.len() == 0 ==> hits@.len() == 0 && misses@ == all.take(i as int),
        decreases n - i,
    {
        let a = rest.remove(0);
        assert(all.take(i + 1).drop_last() =~= all.take(i as int));
        let score = best_match_score(query, field_of(&a, f));
        match score {
            Some(sc) => hits.push((sc, a)),
            None => misses.push(a),
        }
        i = i + 1;
        assert(rest@ =~= all.subrange(i as int, n as int));
        assert(query@.len() == 0 ==> misses@ =~= all.take(i as int));
    }
    assert(all.take(n as int) =~= all);
    (hits, misses)
}

/// The accounts whose field matches the query, lowest score first.
pub open spec fn ranked(accs: Seq<Account>, query: Seq<char>, f: RankField) -> Seq<Account> {
    accounts_of(order_by_score(scored(accs, query, f)))
}

/// The suggestions a content script offers for what the user typed: every account when
/// nothing is typed, else the accounts whose id matches it, lowest score first.
pub fn suggestions(accounts: Vec<Account>, input: &str) -> (res: Vec<Account>)
    ensures
        input@.len() == 0 ==> res@ == accounts@,
        input@.len() > 0 ==> res@ == ranked(accounts@, input@, RankField::Id),
{
    if input.is_empty() {
        accounts
    } else {
        let (hits, _) = score_accounts(accounts, input, &RankField::Id);
        order_scored(hits)
    }
}

/// The accounts the popup lists: with a search, those whose username matches it, lowest
/// score first; without one, those whose domain matches the page's path (empty when
/// unknown), lowest score first, followed by the others in order.
pub fn search_accounts(accounts: Vec<Account>, search: &str, path: &Option<String>) -> (res: Vec<Account>)
    ensures
        search@.len() > 0 ==> res@ == ranked(accounts@, search@, RankField::Username),
        search@.len() == 0 ==> ({
            let q = match path { Some(p) => p@, None => Seq::<char>::empty() };
            res@ == ranked(accounts@, q, RankField::Domain) + unmatched(accounts@, q, RankField::Domain)
        }),
        search@.len() == 0 && path is None ==> res@ == accounts@,
{
    if search.is_empty() {
        let q: &str = match path {
            Some(p) => p.as_str(),
            None => {
                proof {
                    reveal_strlit("");
                    assert(""@ =~= Seq::<char>::empty());
                }
                ""
            },
        };
        let (hits, misses) = score_accounts(accounts, q, &RankField::Domain);
        let mut res = order_scored(hits);
        let ghost first = res@;
        let mut rest = misses;
        let ghost all = rest@;
        let n = rest.len();
        let mut i: usize = 0;
        while i < n
            invariant
                n == all.len(),
                i <= n,
                rest@ == all.subrange(i as int, n as int),
                res@ == first + all.take(i as int),
            decreases n - i,
        {
            let a = rest.remove(0);
            res.push(a);
            i = i + 1;
            assert(res@ =~= first + all.take(i as int));
            assert(rest@ =~= all.subrange(i as int, n as int));
        }
        assert(all.take(n as int) =~= all);
        assert(path is None ==> res@ =~= accounts@);
        res
    } else {
        let (hits, _) = score_accounts(accounts, search, &RankField::Username);
        order_scored(hits)
    }
}

/// The domain of the account, or empty text when it has none.
pub open spec fn domain_text(a: Account) -> Seq<char> {
    field_text(a, RankField::Domain)
}

/// The accounts whose domain is the page's domain, in order.
pub open spec fn of_domain(accs: Seq<Account>, domain: Seq<char>) -> Seq<Account>
    decreases accs.len(),
{
    if accs.len() == 0 {
        Seq::empty()
    } else {
        let rest = of_domain(accs.drop_last(), domain);
        if domain_text(accs.last()) == domain { rest.push(accs.last()) } else { rest }
    }
}

/// The accounts a content script offers on a page: those whose domain (empty when it
/// has none) is the page's domain.
pub fn accounts_for_domain(accounts: Vec<Account>, domain: &str) -> (res: Vec<Account>)
    ensures
        res@ == of_domain(accounts@, domain@),
{
    let ghost all = accounts@;
    let mut rest = accounts;
    let mut out: Vec<Account> = Vec::new();
    let n = rest.len();
    let mut i: usize = 0;
    while i < n
        invariant
            n == all.len(),
            i <= n,
            rest@ == all.subrange(i as int, n as int),
            out@ == of_domain(all.take(i as int), domain@),
        decreases n - i,
    {
        let a = rest.remove(0);
        assert(all.take(i + 1).drop_last() =~= all.take(i as int));
        if crate::text::same_text(field_of(&a, &RankField::Domain), domain) {
            out.push(a);
        }
        i = i + 1;
        assert(rest@ =~= all.subrange(i as int, n as int));
    }
    assert(all.take(n as int) =~= all);
    out
}

} // verus!
