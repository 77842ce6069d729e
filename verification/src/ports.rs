//! What the service worker knows of the ports that popups and content scripts connect
//! with: which are connected, which listen to which store, which port asked a pending
//! request, and which requests wait for the native host.
use vstd::prelude::*;
use crate::request::NotificationTarget;

verus! {

/// The kinds of request that the service worker forwards to the native host.
#[derive(PartialEq, Eq, Structural)]
pub enum RequestKind {
    Get,
    Delete,
    Edit,
    Search,
    Fetch,
    Login,
    Logout,
    Init,
    Create,
    CreateStore,
    DeleteStore,
    SessionEvent,
}

/// What the service worker remembers of a request forwarded to the native host, to handle
/// the response to it.
pub struct PendingRequest {
    pub kind: RequestKind,
    pub store_id: Option<String>,
    pub prev_store_id: Option<String>,
    pub is_default: bool,
    pub acknowledgement: Option<String>,
}

impl PendingRequest {
    /// A copy of the record.
    pub fn copy(&self) -> (res: PendingRequest)
        ensures
            res == *self,
    {
        PendingRequest {
            kind: match self.kind {
                RequestKind::Get => RequestKind::Get,
                RequestKind::Delete => RequestKind::Delete,
                RequestKind::Edit => RequestKind::Edit,
                RequestKind::Search => RequestKind::Search,
                RequestKind::Fetch => RequestKind::Fetch,
                RequestKind::Login => RequestKind::Login,
                RequestKind::Logout => RequestKind::Logout,
                RequestKind::Init => RequestKind::Init,
                RequestKind::Create => RequestKind::Create,
                RequestKind::CreateStore => RequestKind::CreateStore,
                RequestKind::DeleteStore => RequestKind::DeleteStore,
                RequestKind::SessionEvent => RequestKind::SessionEvent,
            },
            store_id: self.store_id.clone(),
            prev_store_id: self.prev_store_id.clone(),
            is_default: self.is_default,
            acknowledgement: self.acknowledgement.clone(),
        }
    }
}

/// Some string of `v` holds the text `x`.
pub open spec fn has_text(v: Seq<String>, x: Seq<char>) -> bool {
    exists|i: int| 0 <= i < v.len() && #[trigger] v[i]@ == x
}

/// The (first, second) text pairs of a sequence of string pairs.
pub open spec fn pair_set(v: Seq<(String, String)>) -> Set<(Seq<char>, Seq<char>)> {
    Set::new(|p: (Seq<char>, Seq<char>)| exists|i: int| 0 <= i < v.len() && (v[i].0@, v[i].1@) == p)
}

/// No two entries have the same key.
pub open spec fn keys_distinct<V>(v: Seq<(String, V)>) -> bool {
    forall|i: int, j: int| 0 <= i < j < v.len() ==> v[i].0@ != v[j].0@
}

/// No text occurs twice.
pub open spec fn texts_distinct(v: Seq<String>) -> bool {
    forall|i: int, j: int| 0 <= i < j < v.len() ==> v[i]@ != v[j]@
}

/// No pair occurs twice.
pub open spec fn pairs_distinct(v: Seq<(String, String)>) -> bool {
    forall|i: int, j: int| 0 <= i < j < v.len() ==> (v[i].0@, v[i].1@) != (v[j].0@, v[j].1@)
}

/// The value under `k` of a keyed sequence.
pub open spec fn keyed_get<V>(v: Seq<(String, V)>, k: Seq<char>) -> Option<V> {
    if exists|i: int| 0 <= i < v.len() && v[i].0@ == k {
        let i = choose|i: int| 0 <= i < v.len() && v[i].0@ == k;
        Some(v[i].1)
    } else {
        None
    }
}

/// The position of the entry with key `k`, if any.
pub fn find_key<V>(v: &Vec<(String, V)>, k: &String) -> (res: Option<usize>)
    ensures
        match res {
            Some(i) => i < v@.len() && v@[i as int].0@ == k@,
            None => forall|j: int| 0 <= j < v@.len() ==> v@[j].0@ != k@,
        },
{
    let mut i: usize = 0;
    while i < v.len()
        invariant
            i <= v@.len(),
            forall|j: int| 0 <= j < i ==> v@[j].0@ != k@,
        decreases v@.len() - i,
    {
        if v[i].0 == *k {
            return Some(i);
        }
        i = i + 1;
    }
    None
}

/// With distinct keys, the entry at a position holds the value under its key.
pub proof fn lemma_keyed_get_at<V>(v: Seq<(String, V)>, i: int)
    requires
        keys_distinct(v),
        0 <= i < v.len(),
    ensures
        keyed_get(v, v[i].0@) == Some(v[i].1),
{
    let j = choose|j: int| 0 <= j < v.len() && v[j].0@ == v[i].0@;
    if j != i {
        if j < i {
            assert(v[j].0@ != v[i].0@);
        } else {
            assert(v[i].0@ != v[j].0@);
        }
    }
}

/// The ports that the service worker knows of.
pub struct PortRegistry {
    /// Names of the connected popup and content-script ports.
    pub connected: Vec<String>,
    /// (store id, port name): the port listens to the store's events.
    pub listeners: Vec<(String, String)>,
    /// (acknowledgement, port name): the port asked the request with that acknowledgement.
    pub port_ids: Vec<(String, String)>,
    /// Requests forwarded to the native host, by acknowledgement.
    pub requests: Vec<(String, PendingRequest)>,
}

impl PortRegistry {
    /// The registry's lists hold no duplicates, as the maps and sets that they stand for.
    pub open spec fn wf(&self) -> bool {
        &&& texts_distinct(self.connected@)
        &&& pairs_distinct(self.listeners@)
        &&& keys_distinct(self.port_ids@)
        &&& keys_distinct(self.requests@)
    }

    /// The names of the connected ports.
    pub open spec fn connected_set(&self) -> Set<Seq<char>> {
        Set::new(|x: Seq<char>| has_text(self.connected@, x))
    }

    /// The (store id, port name) pairs of listening ports.
    pub open spec fn listening(&self) -> Set<(Seq<char>, Seq<char>)> {
        pair_set(self.listeners@)
    }

    /// The port that asked the request with acknowledgement `ack`.
    pub open spec fn port_of(&self, ack: Seq<char>) -> Option<Seq<char>> {
        match keyed_get(self.port_ids@, ack) {
            Some(p) => Some(p@),
            None => None,
        }
    }

    /// The pending request with acknowledgement `ack`.
    pub open spec fn request_of(&self, ack: Seq<char>) -> Option<PendingRequest> {
        keyed_get(self.requests@, ack)
    }

    /// An empty registry.
    pub fn new() -> (res: PortRegistry)
        ensures
            res.wf(),
            res.connected@.len() == 0,
            res.listeners@.len() == 0,
            res.port_ids@.len() == 0,
            res.requests@.len() == 0,
    {
        PortRegistry {
            connected: Vec::new(),
            listeners: Vec::new(),
            port_ids: Vec::new(),
            requests: Vec::new(),
        }
    }

    /// Whether the port named `name` is connected.
    pub fn is_connected(&self, name: &String) -> (res: bool)
        ensures
            res == self.connected_set().contains(name@),
    {
        let mut i: usize = 0;
        while i < self.connected.len()
            invariant
                i <= self.connected@.len(),
                forall|j: int| 0 <= j < i ==> self.connected@[j]@ != name@,
            decreases self.connected@.len() - i,
        {
            if self.connected[i] == *name {
                return true;
            }
            i = i + 1;
        }
        false
    }

    /// Records that the port named `name` connected.
    pub fn connect(&mut self, name: String)
        requires
            old(self).wf(),
        ensures
            final(self).wf(),
            final(self).connected_set() == old(self).connected_set().insert(name@),
            final(self).listeners == old(self).listeners,
            final(self).port_ids == old(self).port_ids,
            final(self).requests == old(self).requests,
    {
        if !self.is_connected(&name) {
            let ghost prev = self.connected@;
            self.connected.push(name);
            proof {
                assert forall|x: Seq<char>| has_text(self.connected@, x) <==> (has_text(prev, x) || x == name@) by {
                    if has_text(self.connected@, x) {
                        let j = choose|j: int| 0 <= j < self.connected@.len() && #[trigger] self.connected@[j]@ == x;
                        if j < prev.len() {
                            assert(prev[j]@ == x);
                        }
                    }
                    if has_text(prev, x) {
                        let j = choose|j: int| 0 <= j < prev.len() && #[trigger] prev[j]@ == x;
                        assert(self.connected@[j]@ == x);
                    }
                    if x == name@ {
                        assert(self.connected@[prev.len() as int]@ == x);
                    }
                }
                assert(self.connected_set() =~= old(self).connected_set().insert(name@));
            }
        } else {
            assert(old(self).connected_set().insert(name@) =~= old(self).connected_set());
        }
    }
}


impl PortRegistry {
    /// Records that the port named `name` disconnected: it is no longer connected and
    /// listens to no store.
    pub fn disconnect(&mut self, name: &String)
        requires
            old(self).wf(),
        ensures
            final(self).wf(),
            final(self).connected_set() == old(self).connected_set().remove(name@),
            final(self).listening() == old(self).listening().filter(
                |p: (Seq<char>, Seq<char>)| p.1 != name@,
            ),
            final(self).port_ids == old(self).port_ids,
            final(self).requests == old(self).requests,
    {
        let conn = retain_texts_except(&self.connected, name);
        let lis = retain_pairs(&self.listeners, None, name);
        proof {
            lemma_kept_texts(self.connected@, name@);
            lemma_kept_pairs(self.listeners@, None, name@);
        }
        self.connected = conn;
        self.listeners = lis;
        proof {
            assert(self.connected_set() =~= old(self).connected_set().remove(name@));
            assert(self.listening() =~= old(self).listening().filter(
                |p: (Seq<char>, Seq<char>)| p.1 != name@,
            ));
        }
    }
}

/// The strings of `v` whose text is not `name`, in order.
pub open spec fn kept_texts(v: Seq<String>, name: Seq<char>) -> Seq<String>
    decreases v.len(),
{
    if v.len() == 0 {
        Seq::empty()
    } else {
        let rest = kept_texts(v.drop_last(), name);
        if v.last()@ != name {
            rest.push(v.last())
        } else {
            rest
        }
    }
}

/// What `kept_texts` keeps, and that it keeps texts distinct.
pub proof fn lemma_kept_texts(v: Seq<String>, name: Seq<char>)
    ensures
        forall|x: Seq<char>| has_text(kept_texts(v, name), x) <==> (has_text(v, x) && x != name),
        texts_distinct(v) ==> texts_distinct(kept_texts(v, name)),
    decreases v.len(),
{
    if v.len() > 0 {
        let w = v.drop_last();
        let l = v.last();
        lemma_kept_texts(w, name);
        let rest = kept_texts(w, name);
        assert forall|x: Seq<char>| has_text(v, x) <==> (has_text(w, x) || l@ == x) by {
            if has_text(v, x) {
                let j = choose|j: int| 0 <= j < v.len() && #[trigger] v[j]@ == x;
                if j < w.len() {
                    assert(w[j]@ == x);
                }
            }
            if has_text(w, x) {
                let j = choose|j: int| 0 <= j < w.len() && #[trigger] w[j]@ == x;
                assert(v[j]@ == x);
            }
            if l@ == x {
                assert(v[v.len() - 1]@ == x);
            }
        }
        if l@ != name {
            assert forall|x: Seq<char>| has_text(rest.push(l), x) <==> (has_text(rest, x) || l@ == x) by {
                if has_text(rest.push(l), x) {
                    let j = choose|j: int| 0 <= j < rest.push(l).len() && #[trigger] rest.push(l)[j]@ == x;
                    if j < rest.len() {
                        assert(rest[j]@ == x);
                    }
                }
                if has_text(rest, x) {
                    let j = choose|j: int| 0 <= j < rest.len() && #[trigger] rest[j]@ == x;
                    assert(rest.push(l)[j]@ == x);
                }
                if l@ == x {
                    assert(rest.push(l)[rest.len() as int]@ == x);
                }
            }
            if texts_distinct(v) {
                assert(texts_distinct(w));
                assert forall|i: int, j: int| 0 <= i < j < rest.push(l).len() implies rest.push(l)[i]@ != rest.push(l)[j]@ by {
                    assert(rest.push(l)[i] == rest[i]);
                    if j == rest.len() {
                        assert(rest.push(l)[j] == l);
                        if rest[i]@ == l@ {
                            assert(has_text(rest, l@));
                            assert(has_text(w, l@));
                            let k = choose|k: int| 0 <= k < w.len() && #[trigger] w[k]@ == l@;
                            assert(v[k] == w[k]);
                            assert(v[k]@ != v[v.len() - 1]@);
                        }
                    } else {
                        assert(rest.push(l)[j] == rest[j]);
                    }
                }
            }
        }
    }
}

/// The strings of `v` whose text is not `name`, in order.
fn retain_texts_except(v: &Vec<String>, name: &String) -> (res: Vec<String>)
    ensures
        res@ == kept_texts(v@, name@),
{
    let mut res: Vec<String> = Vec::new();
    let mut i: usize = 0;
    while i < v.len()
        invariant
            i <= v@.len(),
            res@ == kept_texts(v@.take(i as int), name@),
        decreases v@.len() - i,
    {
        assert(v@.take(i + 1).drop_last() =~= v@.take(i as int));
        assert(v@.take(i + 1).last() == v@[i as int]);
        if v[i] != *name {
            res.push(v[i].clone());
        }
        i = i + 1;
    }
    assert(v@.take(v@.len() as int) =~= v@);
    res
}

/// The text of an optional string.
pub open spec fn opt_text(s: Option<&String>) -> Option<Seq<char>> {
    match s {
        Some(s) => Some(s@),
        None => None,
    }
}

/// Whether the pair is dropped: its second text is `port` and, when `store` is given, its
/// first text is the store.
pub open spec fn pair_dropped(p: (Seq<char>, Seq<char>), store: Option<Seq<char>>, port: Seq<char>) -> bool {
    p.1 == port && (store is None || p.0 == store->0)
}

/// The pairs of `v` that `pair_dropped` does not drop, in order.
pub open spec fn kept_pairs(v: Seq<(String, String)>, store: Option<Seq<char>>, port: Seq<char>) -> Seq<(String, String)>
    decreases v.len(),
{
    if v.len() == 0 {
        Seq::empty()
    } else {
        let rest = kept_pairs(v.drop_last(), store, port);
        if !pair_dropped((v.last().0@, v.last().1@), store, port) {
            rest.push(v.last())
        } else {
            rest
        }
    }
}

/// What `kept_pairs` keeps, and that it keeps pairs distinct.
pub proof fn lemma_kept_pairs(v: Seq<(String, String)>, store: Option<Seq<char>>, port: Seq<char>)
    ensures
        pair_set(kept_pairs(v, store, port)) == pair_set(v).filter(
            |p: (Seq<char>, Seq<char>)| !pair_dropped(p, store, port),
        ),
        pairs_distinct(v) ==> pairs_distinct(kept_pairs(v, store, port)),
    decreases v.len(),
{
    let f = |p: (Seq<char>, Seq<char>)| !pair_dropped(p, store, port);
    if v.len() == 0 {
        assert(pair_set(kept_pairs(v, store, port)) =~= pair_set(v).filter(f));
    } else {
        let w = v.drop_last();
        let l = v.last();
        let lp = (l.0@, l.1@);
        lemma_kept_pairs(w, store, port);
        let rest = kept_pairs(w, store, port);
        assert(pair_set(v) =~= pair_set(w).insert(lp)) by {
            assert forall|x: (Seq<char>, Seq<char>)| pair_set(v).contains(x) <==> pair_set(w).insert(lp).contains(x) by {
                if pair_set(v).contains(x) {
                    let j = choose|j: int| 0 <= j < v.len() && (v[j].0@, v[j].1@) == x;
                    if j < w.len() {
                        assert(w[j] == v[j]);
                    }
                }
                if pair_set(w).contains(x) {
                    let j = choose|j: int| 0 <= j < w.len() && (w[j].0@, w[j].1@) == x;
                    assert(v[j] == w[j]);
                }
            }
        }
        if f(lp) {
            assert(pair_set(rest.push(l)) =~= pair_set(rest).insert(lp)) by {
                assert forall|x: (Seq<char>, Seq<char>)| pair_set(rest.push(l)).contains(x) <==> pair_set(rest).insert(lp).contains(x) by {
                    if pair_set(rest.push(l)).contains(x) {
                        let j = choose|j: int| 0 <= j < rest.push(l).len() && (rest.push(l)[j].0@, rest.push(l)[j].1@) == x;
                        if j < rest.len() {
                            assert(rest[j] == rest.push(l)[j]);
                        }
                    }
                    if pair_set(rest).contains(x) {
                        let j = choose|j: int| 0 <= j < rest.len() && (rest[j].0@, rest[j].1@) == x;
                        assert(rest.push(l)[j] == rest[j]);
                    }
                    if x == lp {
                        assert(rest.push(l)[rest.len() as int] == l);
                    }
                }
            }
            assert(pair_set(kept_pairs(v, store, port)) =~= pair_set(v).filter(f));
            if pairs_distinct(v) {
                assert(pairs_distinct(w));
                assert forall|i: int, j: int| 0 <= i < j < rest.push(l).len() implies (rest.push(l)[i].0@, rest.push(l)[i].1@) != (rest.push(l)[j].0@, rest.push(l)[j].1@) by {
                    if j == rest.len() {
                        if (rest[i].0@, rest[i].1@) == lp {
                            assert(pair_set(rest).contains(lp));
                            assert(pair_set(w).contains(lp));
                            let k = choose|k: int| 0 <= k < w.len() && (w[k].0@, w[k].1@) == lp;
                            assert((v[k].0@, v[k].1@) != (v[v.len() - 1].0@, v[v.len() - 1].1@));
                        }
                    } else {
                        assert(rest.push(l)[i] == rest[i]);
                        assert(rest.push(l)[j] == rest[j]);
                    }
                }
            }
        } else {
            assert(pair_set(kept_pairs(v, store, port)) =~= pair_set(v).filter(f));
        }
    }
}

/// The pairs of `v` that `pair_dropped` does not drop, in order.
fn retain_pairs(v: &Vec<(String, String)>, store: Option<&String>, port: &String) -> (res: Vec<(String, String)>)
    ensures
        res@ == kept_pairs(v@, opt_text(store), port@),
{
    let mut res: Vec<(String, String)> = Vec::new();
    let mut i: usize = 0;
    while i < v.len()
        invariant
            i <= v@.len(),
            res@ == kept_pairs(v@.take(i as int), opt_text(store), port@),
        decreases v@.len() - i,
    {
        assert(v@.take(i + 1).drop_last() =~= v@.take(i as int));
        assert(v@.take(i + 1).last() == v@[i as int]);
        let dropped = v[i].1 == *port && match store {
            None => true,
            Some(s) => v[i].0 == *s,
        };
        if !dropped {
            res.push((v[i].0.clone(), v[i].1.clone()));
        }
        i = i + 1;
    }
    assert(v@.take(v@.len() as int) =~= v@);
    res
}

/// The texts of a sequence of strings, in order.
pub open spec fn text_seq(v: Seq<String>) -> Seq<Seq<char>>
    decreases v.len(),
{
    if v.len() == 0 {
        Seq::empty()
    } else {
        text_seq(v.drop_last()).push(v.last()@)
    }
}

/// The names of the ports that the pairs `l` record as listening to store `s`, in order.
pub open spec fn listener_names(l: Seq<(String, String)>, s: Seq<char>) -> Seq<Seq<char>>
    decreases l.len(),
{
    if l.len() == 0 {
        Seq::empty()
    } else {
        let rest = listener_names(l.drop_last(), s);
        if l.last().0@ == s {
            rest.push(l.last().1@)
        } else {
            rest
        }
    }
}

/// The names of the ports of `c`, in order, that listen to store `s` by `listening`.
pub open spec fn listening_names(c: Seq<String>, listening: Set<(Seq<char>, Seq<char>)>, s: Seq<char>) -> Seq<Seq<char>>
    decreases c.len(),
{
    if c.len() == 0 {
        Seq::empty()
    } else {
        let rest = listening_names(c.drop_last(), listening, s);
        if listening.contains((s, c.last()@)) {
            rest.push(c.last()@)
        } else {
            rest
        }
    }
}

/// The names of `ps`, in order, that `connected` holds.
pub open spec fn connected_names(ps: Seq<String>, connected: Set<Seq<char>>) -> Seq<Seq<char>>
    decreases ps.len(),
{
    if ps.len() == 0 {
        Seq::empty()
    } else {
        let rest = connected_names(ps.drop_last(), connected);
        if connected.contains(ps.last()@) {
            rest.push(ps.last()@)
        } else {
            rest
        }
    }
}

/// The names of the ports that an event for `target` is sent to, in order.
pub open spec fn target_names(reg: PortRegistry, target: NotificationTarget) -> Seq<Seq<char>> {
    match target {
        NotificationTarget::All => text_seq(reg.connected@),
        NotificationTarget::Store { store_id } => listening_names(reg.connected@, reg.listening(), store_id@),
        NotificationTarget::Port { port_id } => if reg.connected_set().contains(port_id@) {
            seq![port_id@]
        } else {
            Seq::empty()
        },
        NotificationTarget::Ports { port_ids } => connected_names(port_ids@, reg.connected_set()),
        NotificationTarget::StoreAndPorts { store_id, port_ids } => connected_names(
            port_ids@,
            reg.connected_set(),
        ) + listening_names(reg.connected@, reg.listening(), store_id@),
        NotificationTarget::Nobody => Seq::empty(),
    }
}

impl PortRegistry {
    /// Whether the port `port` listens to the store `store`.
    pub fn is_listening(&self, store: &String, port: &String) -> (res: bool)
        ensures
            res == self.listening().contains((store@, port@)),
    {
        let mut i: usize = 0;
        while i < self.listeners.len()
            invariant
                i <= self.listeners@.len(),
                forall|j: int| 0 <= j < i ==> (self.listeners@[j].0@, self.listeners@[j].1@) != (store@, port@),
            decreases self.listeners@.len() - i,
        {
            if self.listeners[i].0 == *store && self.listeners[i].1 == *port {
                assert(self.listening().contains((store@, port@)));
                return true;
            }
            i = i + 1;
        }
        false
    }

    /// Records that the port `port` listens to the store `store`.
    pub fn listen(&mut self, store: &String, port: &String)
        requires
            old(self).wf(),
        ensures
            final(self).wf(),
            final(self).listening() == old(self).listening().insert((store@, port@)),
            final(self).connected == old(self).connected,
            final(self).port_ids == old(self).port_ids,
            final(self).requests == old(self).requests,
    {
        if self.is_listening(store, port) {
            assert(old(self).listening().insert((store@, port@)) =~= old(self).listening());
        } else {
            let ghost prev = self.listeners@;
            self.listeners.push((store.clone(), port.clone()));
            proof {
                assert forall|x: (Seq<char>, Seq<char>)| self.listening().contains(x) <==> old(self).listening().insert((store@, port@)).contains(x) by {
                    if self.listening().contains(x) {
                        let j = choose|j: int| 0 <= j < self.listeners@.len() && (self.listeners@[j].0@, self.listeners@[j].1@) == x;
                        if j < prev.len() {
                            assert(prev[j] == self.listeners@[j]);
                        }
                    }
                    if old(self).listening().contains(x) {
                        let j = choose|j: int| 0 <= j < prev.len() && (prev[j].0@, prev[j].1@) == x;
                        assert(self.listeners@[j] == prev[j]);
                    }
                    if x == (store@, port@) {
                        assert((self.listeners@[prev.len() as int].0@, self.listeners@[prev.len() as int].1@) == x);
                    }
                }
                assert(self.listening() =~= old(self).listening().insert((store@, port@)));
                assert forall|i: int, j: int| 0 <= i < j < self.listeners@.len() implies (self.listeners@[i].0@, self.listeners@[i].1@) != (self.listeners@[j].0@, self.listeners@[j].1@) by {
                    if j == prev.len() {
                        assert(self.listeners@[i] == prev[i]);
                    } else {
                        assert(self.listeners@[i] == prev[i]);
                        assert(self.listeners@[j] == prev[j]);
                    }
                }
            }
        }
    }

    /// The names of the ports that listen to the store `store`, in the order they started
    /// listening.
    pub fn listeners_of(&self, store: &String) -> (res: Vec<String>)
        ensures
            text_seq(res@) == listener_names(self.listeners@, store@),
            forall|x: Seq<char>| has_text(res@, x) <==> self.listening().contains((store@, x)),
    {
        let mut res: Vec<String> = Vec::new();
        let mut i: usize = 0;
        assert(self.listeners@.take(0) =~= Seq::<(String, String)>::empty());
        while i < self.listeners.len()
            invariant
                i <= self.listeners@.len(),
                text_seq(res@) == listener_names(self.listeners@.take(i as int), store@),
                forall|x: Seq<char>| has_text(res@, x) <==> exists|j: int| 0 <= j < i && (#[trigger] self.listeners@[j].0@, self.listeners@[j].1@) == (store@, x),
            decreases self.listeners@.len() - i,
        {
            let ghost prev = res@;
            assert(self.listeners@.take(i + 1).drop_last() =~= self.listeners@.take(i as int));
            if self.listeners[i].0 == *store {
                res.push(self.listeners[i].1.clone());
                assert(res@.drop_last() =~= prev);
            }
            proof {
                assert forall|x: Seq<char>| has_text(res@, x) <==> exists|j: int| 0 <= j < i + 1 && (#[trigger] self.listeners@[j].0@, self.listeners@[j].1@) == (store@, x) by {
                    if has_text(res@, x) {
                        let k = choose|k: int| 0 <= k < res@.len() && #[trigger] res@[k]@ == x;
                        if k < prev.len() {
                            assert(prev[k] == res@[k]);
                            assert(has_text(prev, x));
                        } else {
                            assert((self.listeners@[i as int].0@, self.listeners@[i as int].1@) == (store@, x));
                        }
                    }
                    if exists|j: int| 0 <= j < i + 1 && (#[trigger] self.listeners@[j].0@, self.listeners@[j].1@) == (store@, x) {
                        let j = choose|j: int| 0 <= j < i + 1 && (#[trigger] self.listeners@[j].0@, self.listeners@[j].1@) == (store@, x);
                        if j < i {
                            assert(has_text(prev, x));
                            let k = choose|k: int| 0 <= k < prev.len() && #[trigger] prev[k]@ == x;
                            assert(res@[k] == prev[k]);
                        } else {
                            assert(res@[res@.len() - 1]@ == x);
                        }
                    }
                }
            }
            i = i + 1;
        }
        assert(self.listeners@.take(i as int) =~= self.listeners@);
        res
    }

    /// Records that the ports named in `ports` stop listening to the store `store`.
    pub fn stop_listening(&mut self, store: &String, ports: &Vec<String>)
        requires
            old(self).wf(),
        ensures
            final(self).wf(),
            final(self).listening() == old(self).listening().filter(
                |x: (Seq<char>, Seq<char>)| !(x.0 == store@ && has_text(ports@, x.1)),
            ),
            final(self).connected == old(self).connected,
            final(self).port_ids == old(self).port_ids,
            final(self).requests == old(self).requests,
    {
        let mut i: usize = 0;
        while i < ports.len()
            invariant
                self.wf(),
                i <= ports@.len(),
                self.listening() == old(self).listening().filter(
                    |x: (Seq<char>, Seq<char>)| !(x.0 == store@ && has_text(ports@.take(i as int), x.1)),
                ),
                self.connected == old(self).connected,
                self.port_ids == old(self).port_ids,
                self.requests == old(self).requests,
            decreases ports@.len() - i,
        {
            let ghost before = self.listening();
            let lis = retain_pairs(&self.listeners, Some(store), &ports[i]);
            proof {
                lemma_kept_pairs(self.listeners@, Some(store@), ports@[i as int]@);
            }
            self.listeners = lis;
            proof {
                assert forall|x: Seq<char>| has_text(ports@.take(i + 1), x) <==> (has_text(ports@.take(i as int), x) || x == ports@[i as int]@) by {
                    if has_text(ports@.take(i + 1), x) {
                        let j = choose|j: int| 0 <= j < ports@.take(i + 1).len() && #[trigger] ports@.take(i + 1)[j]@ == x;
                        if j < i {
                            assert(ports@.take(i as int)[j] == ports@[j]);
                        }
                    }
                    if has_text(ports@.take(i as int), x) {
                        let j = choose|j: int| 0 <= j < ports@.take(i as int).len() && #[trigger] ports@.take(i as int)[j]@ == x;
                        assert(ports@.take(i + 1)[j] == ports@[j]);
                    }
                    if x == ports@[i as int]@ {
                        assert(ports@.take(i + 1)[i as int] == ports@[i as int]);
                    }
                }
                assert forall|x: (Seq<char>, Seq<char>)| self.listening().contains(x) <==> old(self).listening().filter(
                    |x: (Seq<char>, Seq<char>)| !(x.0 == store@ && has_text(ports@.take(i + 1), x.1)),
                ).contains(x) by {
                    assert(self.listening().contains(x) <==> (before.contains(x) && !pair_dropped(x, Some(store@), ports@[i as int]@)));
                    assert(has_text(ports@.take(i + 1), x.1) <==> (has_text(ports@.take(i as int), x.1) || x.1 == ports@[i as int]@));
                    assert(before.contains(x) <==> (old(self).listening().contains(x) && !(x.0 == store@ && has_text(ports@.take(i as int), x.1))));
                }
                assert(self.listening() =~= old(self).listening().filter(
                    |x: (Seq<char>, Seq<char>)| !(x.0 == store@ && has_text(ports@.take(i + 1), x.1)),
                ));
            }
            i = i + 1;
        }
        assert(ports@.take(ports@.len() as int) =~= ports@);
    }

    /// The names of the ports that an event for `target` is sent to: every connected port;
    /// the connected ports that listen to a store; or the named ports that are connected.
    pub fn targets(&self, target: &NotificationTarget) -> (res: Vec<String>)
        ensures
            text_seq(res@) == target_names(*self, *target),
    {
        match target {
            NotificationTarget::All => copy_texts(&self.connected),
            NotificationTarget::Store { store_id } => self.listening_connected(store_id),
            NotificationTarget::Port { port_id } => {
                let mut res: Vec<String> = Vec::new();
                if self.is_connected(port_id) {
                    res.push(port_id.clone());
                    assert(text_seq(res@) =~= seq![port_id@]) by {
                        reveal_with_fuel(text_seq, 2);
                    }
                }
                res
            },
            NotificationTarget::Ports { port_ids } => self.connected_of(port_ids),
            NotificationTarget::StoreAndPorts { store_id, port_ids } => {
                let mut res = self.connected_of(port_ids);
                let rest = self.listening_connected(store_id);
                let ghost a = res@;
                let mut i: usize = 0;
                while i < rest.len()
                    invariant
                        i <= rest@.len(),
                        res@ == a + rest@.take(i as int),
                    decreases rest@.len() - i,
                {
                    res.push(rest[i].clone());
                    i = i + 1;
                    assert(res@ =~= a + rest@.take(i as int));
                }
                assert(rest@.take(rest@.len() as int) =~= rest@);
                proof {
                    lemma_text_seq_add(a, rest@);
                }
                res
            },
            NotificationTarget::Nobody => Vec::new(),
        }
    }

    /// The connected ports, in order, that listen to the store `store`.
    fn listening_connected(&self, store: &String) -> (res: Vec<String>)
        ensures
            text_seq(res@) == listening_names(self.connected@, self.listening(), store@),
    {
        let mut res: Vec<String> = Vec::new();
        let mut i: usize = 0;
        while i < self.connected.len()
            invariant
                i <= self.connected@.len(),
                text_seq(res@) == listening_names(self.connected@.take(i as int), self.listening(), store@),
            decreases self.connected@.len() - i,
        {
            assert(self.connected@.take(i + 1).drop_last() =~= self.connected@.take(i as int));
            if self.is_listening(store, &self.connected[i]) {
                let ghost prev = res@;
                res.push(self.connected[i].clone());
                assert(res@.drop_last() =~= prev);
            }
            i = i + 1;
        }
        assert(self.connected@.take(self.connected@.len() as int) =~= self.connected@);
        res
    }

    /// The names of `ports`, in order, that are connected.
    fn connected_of(&self, ports: &Vec<String>) -> (res: Vec<String>)
        ensures
            text_seq(res@) == connected_names(ports@, self.connected_set()),
    {
        let mut res: Vec<String> = Vec::new();
        let mut i: usize = 0;
        while i < ports.len()
            invariant
                i <= ports@.len(),
                text_seq(res@) == connected_names(ports@.take(i as int), self.connected_set()),
            decreases ports@.len() - i,
        {
            assert(ports@.take(i + 1).drop_last() =~= ports@.take(i as int));
            if self.is_connected(&ports[i]) {
                let ghost prev = res@;
                res.push(ports[i].clone());
                assert(res@.drop_last() =~= prev);
            }
            i = i + 1;
        }
        assert(ports@.take(ports@.len() as int) =~= ports@);
        res
    }
}

/// A copy of a sequence of strings.
pub fn copy_texts(v: &Vec<String>) -> (res: Vec<String>)
    ensures
        res@ == v@,
        text_seq(res@) == text_seq(v@),
{
    let mut res: Vec<String> = Vec::new();
    let mut i: usize = 0;
    while i < v.len()
        invariant
            i <= v@.len(),
            res@ == v@.take(i as int),
        decreases v@.len() - i,
    {
        res.push(v[i].clone());
        i = i + 1;
        assert(res@ =~= v@.take(i as int));
    }
    assert(v@.take(v@.len() as int) =~= v@);
    res
}

/// The texts of two sequences one after the other.
pub proof fn lemma_text_seq_add(a: Seq<String>, b: Seq<String>)
    ensures
        text_seq(a + b) == text_seq(a) + text_seq(b),
    decreases b.len(),
{
    if b.len() == 0 {
        assert(a + b =~= a);
        assert(text_seq(b) =~= Seq::<Seq<char>>::empty());
        assert(text_seq(a) + text_seq(b) =~= text_seq(a));
    } else {
        lemma_text_seq_add(a, b.drop_last());
        assert((a + b).drop_last() =~= a + b.drop_last());
        assert(text_seq(a) + text_seq(b) =~= (text_seq(a) + text_seq(b.drop_last())).push(b.last()@));
    }
}

/// A keyed sequence with no entry under `k` has no value under it.
pub proof fn lemma_keyed_get_absent<V>(v: Seq<(String, V)>, k: Seq<char>)
    requires
        forall|i: int| 0 <= i < v.len() ==> v[i].0@ != k,
    ensures
        keyed_get(v, k) is None,
{
}

/// Sets the value under `k` to `val`, keeping every other key's value.
pub fn keyed_insert<V>(v: &mut Vec<(String, V)>, k: String, val: V)
    requires
        keys_distinct(old(v)@),
    ensures
        keys_distinct(final(v)@),
        keyed_get(final(v)@, k@) == Some(val),
        forall|k2: Seq<char>| k2 != k@ ==> #[trigger] keyed_get(final(v)@, k2) == keyed_get(old(v)@, k2),
{
    let ghost kk = k@;
    match find_key(v, &k) {
        Some(i) => {
            let _ = v.remove(i);
            v.insert(i, (k, val));
            proof {
                let o = old(v)@;
                let n = v@;
                assert(n =~= o.update(i as int, n[i as int]));
                assert forall|a: int, b: int| 0 <= a < b < n.len() implies n[a].0@ != n[b].0@ by {
                    if a == i {
                        assert(n[a].0@ == o[a].0@);
                    }
                    if b == i {
                        assert(n[b].0@ == o[b].0@);
                    }
                }
                lemma_keyed_get_at(n, i as int);
                assert forall|k2: Seq<char>| k2 != kk implies #[trigger] keyed_get(n, k2) == keyed_get(o, k2) by {
                    if exists|j: int| 0 <= j < o.len() && o[j].0@ == k2 {
                        let j = choose|j: int| 0 <= j < o.len() && o[j].0@ == k2;
                        lemma_keyed_get_at(o, j);
                        lemma_keyed_get_at(n, j);
                    } else {
                        assert forall|j: int| 0 <= j < n.len() implies n[j].0@ != k2 by {
                            if j != i {
                                assert(n[j] == o[j]);
                            }
                        }
                    }
                }
            }
        },
        None => {
            v.push((k, val));
            proof {
                let o = old(v)@;
                let n = v@;
                assert forall|a: int, b: int| 0 <= a < b < n.len() implies n[a].0@ != n[b].0@ by {
                    assert(n[a] == o[a]);
                    if b < o.len() {
                        assert(n[b] == o[b]);
                    }
                }
                lemma_keyed_get_at(n, o.len() as int);
                assert forall|k2: Seq<char>| k2 != kk implies #[trigger] keyed_get(n, k2) == keyed_get(o, k2) by {
                    if exists|j: int| 0 <= j < o.len() && o[j].0@ == k2 {
                        let j = choose|j: int| 0 <= j < o.len() && o[j].0@ == k2;
                        lemma_keyed_get_at(o, j);
                        assert(n[j] == o[j]);
                        lemma_keyed_get_at(n, j);
                    } else {
                        assert forall|j: int| 0 <= j < n.len() implies n[j].0@ != k2 by {
                            if j < o.len() {
                                assert(n[j] == o[j]);
                            }
                        }
                    }
                }
            }
        },
    }
}

/// Removes the entry under `k` and returns its value, keeping every other key's value.
pub fn keyed_take<V>(v: &mut Vec<(String, V)>, k: &String) -> (res: Option<V>)
    requires
        keys_distinct(old(v)@),
    ensures
        keys_distinct(final(v)@),
        res == keyed_get(old(v)@, k@),
        keyed_get(final(v)@, k@) is None,
        forall|k2: Seq<char>| k2 != k@ ==> #[trigger] keyed_get(final(v)@, k2) == keyed_get(old(v)@, k2),
{
    match find_key(v, k) {
        Some(i) => {
            let (_, val) = v.remove(i);
            proof {
                let o = old(v)@;
                let n = v@;
                assert(n =~= o.remove(i as int));
                lemma_keyed_get_at(o, i as int);
                assert forall|a: int, b: int| 0 <= a < b < n.len() implies n[a].0@ != n[b].0@ by {
                    let a2 = if a < i { a } else { a + 1 };
                    let b2 = if b < i { b } else { b + 1 };
                    assert(n[a] == o[a2]);
                    assert(n[b] == o[b2]);
                }
                assert forall|j: int| 0 <= j < n.len() implies n[j].0@ != k@ by {
                    let j2 = if j < i { j } else { j + 1 };
                    assert(n[j] == o[j2]);
                }
                assert forall|k2: Seq<char>| k2 != k@ implies #[trigger] keyed_get(n, k2) == keyed_get(o, k2) by {
                    if exists|j: int| 0 <= j < o.len() && o[j].0@ == k2 {
                        let j = choose|j: int| 0 <= j < o.len() && o[j].0@ == k2;
                        lemma_keyed_get_at(o, j);
                        let j2 = if j < i { j } else { j - 1 };
                        assert(n[j2] == o[j]);
                        lemma_keyed_get_at(n, j2);
                    } else {
                        assert forall|j: int| 0 <= j < n.len() implies n[j].0@ != k2 by {
                            let j2 = if j < i { j } else { j + 1 };
                            assert(n[j] == o[j2]);
                        }
                    }
                }
            }
            Some(val)
        },
        None => {
            proof {
                lemma_keyed_get_absent(v@, k@);
            }
            None
        },
    }
}

impl PortRegistry {
    /// Records that the port `port` asked the request with acknowledgement `ack`.
    pub fn insert_port_id(&mut self, ack: String, port: String)
        requires
            old(self).wf(),
        ensures
            final(self).wf(),
            final(self).port_of(ack@) == Some(port@),
            forall|a: Seq<char>| a != ack@ ==> #[trigger] final(self).port_of(a) == old(self).port_of(a),
            final(self).connected == old(self).connected,
            final(self).listeners == old(self).listeners,
            final(self).requests == old(self).requests,
    {
        let ghost ak = ack@;
        keyed_insert(&mut self.port_ids, ack, port);
        assert forall|a: Seq<char>| a != ak implies #[trigger] self.port_of(a) == old(self).port_of(a) by {
            assert(keyed_get(self.port_ids@, a) == keyed_get(old(self).port_ids@, a));
        }
    }

    /// Forgets which port asked the request with acknowledgement `ack`, and returns it.
    pub fn take_port_id(&mut self, ack: &String) -> (res: Option<String>)
        requires
            old(self).wf(),
        ensures
            final(self).wf(),
            match res {
                Some(p) => old(self).port_of(ack@) == Some(p@),
                None => old(self).port_of(ack@) is None,
            },
            final(self).port_of(ack@) is None,
            forall|a: Seq<char>| a != ack@ ==> #[trigger] final(self).port_of(a) == old(self).port_of(a),
            final(self).connected == old(self).connected,
            final(self).listeners == old(self).listeners,
            final(self).requests == old(self).requests,
    {
        let res = keyed_take(&mut self.port_ids, ack);
        assert forall|a: Seq<char>| a != ack@ implies #[trigger] self.port_of(a) == old(self).port_of(a) by {
            assert(keyed_get(self.port_ids@, a) == keyed_get(old(self).port_ids@, a));
        }
        res
    }

    /// Records a request forwarded to the native host under its acknowledgement.
    pub fn insert_request(&mut self, ack: String, request: PendingRequest)
        requires
            old(self).wf(),
        ensures
            final(self).wf(),
            final(self).request_of(ack@) == Some(request),
            forall|a: Seq<char>| a != ack@ ==> #[trigger] final(self).request_of(a) == old(self).request_of(a),
            final(self).connected == old(self).connected,
            final(self).listeners == old(self).listeners,
            final(self).port_ids == old(self).port_ids,
    {
        keyed_insert(&mut self.requests, ack, request);
    }

    /// The request forwarded to the native host under acknowledgement `ack`, if any.
    pub fn get_request(&self, ack: &String) -> (res: Option<PendingRequest>)
        requires
            self.wf(),
        ensures
            res == self.request_of(ack@),
    {
        match find_key(&self.requests, ack) {
            Some(i) => {
                proof {
                    lemma_keyed_get_at(self.requests@, i as int);
                }
                Some(self.requests[i].1.copy())
            },
            None => None,
        }
    }
}

} // verus!
