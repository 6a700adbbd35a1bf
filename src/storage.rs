use vstd::prelude::*;
use vstd::hash_map::StringHashMap;

verus! {

/// The key-value store: a map from keys to values, keys unique.
///
/// A server shares one store among its connections by holding it behind a
/// lock and running each request on it while the lock is held.
pub struct Storage {
    map: StringHashMap<String>,
}

/// What a key maps to in a store's contents, if anything.
pub open spec fn lookup(m: Map<Seq<char>, Seq<char>>, k: Seq<char>) -> Option<Seq<char>> {
    if m.contains_key(k) {
        Some(m[k])
    } else {
        None
    }
}

/// The characters of an optional owned string.
pub open spec fn opt_view(o: Option<String>) -> Option<Seq<char>> {
    match o {
        Some(s) => Some(s@),
        None => None,
    }
}

impl View for Storage {
    type V = Map<Seq<char>, Seq<char>>;

    closed spec fn view(&self) -> Map<Seq<char>, Seq<char>> {
        self.map@.map_values(|s: String| s@)
    }
}

impl Storage {
    /// An empty store.
    pub fn new() -> (t: Self)
        ensures
            t@ == Map::<Seq<char>, Seq<char>>::empty(),
    {
        let t = Storage { map: StringHashMap::new() };
        assert(t@ =~= Map::<Seq<char>, Seq<char>>::empty());
        t
    }

    /// The value stored under `key`, or `None` when the key was never set.
    pub fn get(&self, key: &str) -> (r: Option<String>)
        ensures
            opt_view(r) == lookup(self@, key@),
    {
        match self.map.get(key) {
            Some(v) => Some(v.clone()),
            None => None,
        }
    }

    /// Stores `value` under `key`, replacing any earlier value.
    pub fn set(&mut self, key: String, value: String)
        ensures
            final(self)@ == old(self)@.insert(key@, value@),
    {
        self.map.insert(key, value);
        assert(self@ =~= old(self)@.insert(key@, value@));
    }
}

/// The contents after the writes `ws` are applied to `m` in order.
pub open spec fn after_writes(m: Map<Seq<char>, Seq<char>>, ws: Seq<(Seq<char>, Seq<char>)>) -> Map<
    Seq<char>,
    Seq<char>,
>
    decreases ws.len(),
{
    if ws.len() == 0 {
        m
    } else {
        after_writes(m, ws.drop_last()).insert(ws.last().0, ws.last().1)
    }
}

/// After `set(k, v)`, `get(k)` returns `v` for as long as the writes that
/// follow leave `k` alone.
pub proof fn lemma_get_after_set(
    m: Map<Seq<char>, Seq<char>>,
    k: Seq<char>,
    v: Seq<char>,
    ws: Seq<(Seq<char>, Seq<char>)>,
)
    requires
        forall|i: int| 0 <= i < ws.len() ==> (#[trigger] ws[i]).0 != k,
    ensures
        lookup(after_writes(m.insert(k, v), ws), k) == Some(v),
    decreases ws.len(),
{
    if ws.len() > 0 {
        let rest = ws.drop_last();
        assert forall|i: int| 0 <= i < rest.len() implies (#[trigger] rest[i]).0 != k by {
            assert(rest[i] == ws[i]);
        }
        lemma_get_after_set(m, k, v, rest);
        assert(ws.last() == ws[ws.len() - 1]);
    }
}

/// Setting the same key to the same value twice leaves the store as one
/// such `set` does.
pub proof fn lemma_set_idempotent(m: Map<Seq<char>, Seq<char>>, k: Seq<char>, v: Seq<char>)
    ensures
        m.insert(k, v).insert(k, v) == m.insert(k, v),
{
    assert(m.insert(k, v).insert(k, v) =~= m.insert(k, v));
}

/// Two writes to one key, applied in either order, leave the key holding the
/// value of the one applied last: one of the two values, never another.
pub proof fn lemma_last_writer_wins(m: Map<Seq<char>, Seq<char>>, k: Seq<char>, a: Seq<char>, b: Seq<char>)
    ensures
        lookup(m.insert(k, a).insert(k, b), k) == Some(b),
        lookup(m.insert(k, b).insert(k, a), k) == Some(a),
{
}

} // verus!
