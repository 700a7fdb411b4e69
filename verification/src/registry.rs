//! The registry of running relays: the address each relay serves, mapped to
//! the time (milliseconds since the epoch) at which it last showed activity.

use concurrent_hash_map::ConcurrentHashMap;
use std::collections::hash_map::RandomState;
use std::hash::BuildHasher;
use std::hash::Hash;
use vstd::prelude::*;

verus! {

#[verifier::external_type_specification]
#[verifier::external_body]
#[verifier::reject_recursive_types(K)]
#[verifier::reject_recursive_types(V)]
#[verifier::reject_recursive_types(H)]
pub struct ExConcurrentHashMap<K: Eq + Hash + Sync + Clone, V: Sync + Clone, H: BuildHasher>(
    ConcurrentHashMap<K, V, H>,
);

/// The table type that holds the relays.
pub type RelayTable = ConcurrentHashMap<String, i64, RandomState>;

/// What a table of relays holds: each key by its text, with its value.
pub uninterp spec fn table_contents(m: RelayTable) -> Map<Seq<char>, i64>;

/// `ConcurrentHashMap::new`: an empty table.
#[verifier::external_body]
fn table_new() -> (m: RelayTable)
    ensures
        table_contents(m) =~= Map::empty(),
{
    ConcurrentHashMap::new()
}

/// `ConcurrentHashMap::insert`: the key now maps to the value; the previous
/// value of the key, if it had one, is handed back.
#[verifier::external_body]
fn table_insert(m: &mut RelayTable, key: String, value: i64) -> (prev: Option<i64>)
    ensures
        table_contents(*final(m)) == table_contents(*old(m)).insert(key@, value),
        prev == (if table_contents(*old(m)).contains_key(key@) {
            Some(table_contents(*old(m))[key@])
        } else {
            None
        }),
{
    m.insert(key, value)
}

/// `ConcurrentHashMap::remove`: the key no longer maps to anything; its
/// previous value, if it had one, is handed back.
#[verifier::external_body]
fn table_remove(m: &mut RelayTable, key: String) -> (prev: Option<i64>)
    ensures
        table_contents(*final(m)) == table_contents(*old(m)).remove(key@),
        prev == (if table_contents(*old(m)).contains_key(key@) {
            Some(table_contents(*old(m))[key@])
        } else {
            None
        }),
{
    m.remove(key)
}

/// `ConcurrentHashMap::entries`: every key-value pair of the table, each key
/// once, in an order the source leaves open (bucket order).
#[verifier::external_body]
fn table_entries(m: &RelayTable) -> (es: Vec<(String, i64)>)
    ensures
        forall|i: int, j: int|
            0 <= i < es@.len() && 0 <= j < es@.len() && i != j ==> (#[trigger] es@[i]).0@ != (#[trigger] es@[j]).0@,
        forall|i: int|
            0 <= i < es@.len() ==> table_contents(*m).contains_key((#[trigger] es@[i]).0@)
                && table_contents(*m)[es@[i].0@] == es@[i].1,
        forall|k: Seq<char>|
            #[trigger] table_contents(*m).contains_key(k) ==> exists|i: int| 0 <= i < es@.len() && (#[trigger] es@[i]).0@ == k,
{
    m.entries()
}

/// `chrono::Local::now().timestamp_millis()`: the current time in
/// milliseconds since the epoch. Only its sign is stated: `Utc::now`, which
/// `Local::now` goes through, panics on a clock before the epoch, so the
/// value is never negative; which value the clock gives is left unsaid.
#[verifier::external_body]
pub(crate) fn now_millis() -> (t: i64)
    ensures
        t >= 0,
{
    chrono::Local::now().timestamp_millis()
}

/// The registry of running relays, keyed by the address each relay serves.
pub struct UdpRegistry {
    table: RelayTable,
}

impl View for UdpRegistry {
    type V = Map<Seq<char>, i64>;

    closed spec fn view(&self) -> Map<Seq<char>, i64> {
        table_contents(self.table)
    }
}

/// A relay whose last activity lies more than this many milliseconds in the
/// past is considered dead.
pub const EXPIRY_MILLIS: i64 = 20000;

/// Whether a relay last seen at `seen` has expired at time `now`.
pub open spec fn is_expired(seen: i64, now: i64) -> bool {
    now - seen > EXPIRY_MILLIS
}

/// The registry after removing every relay that has expired at `now`.
pub open spec fn after_expiry(m: Map<Seq<char>, i64>, now: i64) -> Map<Seq<char>, i64> {
    Map::new(|k: Seq<char>| m.contains_key(k) && !is_expired(m[k], now), |k: Seq<char>| m[k])
}

impl UdpRegistry {
    /// An empty registry.
    pub fn new() -> (r: Self)
        ensures
            r@ == Map::<Seq<char>, i64>::empty(),
    {
        UdpRegistry { table: table_new() }
    }

    /// Records that the relay at `addr` was active at time `at`.
    pub fn record(&mut self, addr: &String, at: i64)
        ensures
            final(self)@ == old(self)@.insert(addr@, at),
    {
        let _ = table_insert(&mut self.table, addr.clone(), at);
    }

    /// Records that the relay at `addr` is active now; returns the time
    /// recorded.
    pub fn touch(&mut self, addr: &String) -> (at: i64)
        ensures
            final(self)@ == old(self)@.insert(addr@, at),
            at >= 0,
    {
        let at: i64 = now_millis();
        self.record(addr, at);
        at
    }

    /// Every relay with the time of its last activity, each address once.
    pub fn snapshot(&self) -> (es: Vec<(String, i64)>)
        ensures
            forall|i: int, j: int|
                0 <= i < es@.len() && 0 <= j < es@.len() && i != j ==> (#[trigger] es@[i]).0@ != (#[trigger] es@[j]).0@,
            forall|i: int|
                0 <= i < es@.len() ==> self@.contains_key((#[trigger] es@[i]).0@) && self@[es@[i].0@] == es@[i].1,
            forall|k: Seq<char>|
                #[trigger] self@.contains_key(k) ==> exists|i: int| 0 <= i < es@.len() && (#[trigger] es@[i]).0@ == k,
    {
        table_entries(&self.table)
    }

    /// Whether a relay serving `addr` is registered.
    pub fn is_running(&self, addr: &String) -> (b: bool)
        ensures
            b == self@.contains_key(addr@),
    {
        let es = self.snapshot();
        let mut i: usize = 0;
        while i < es.len()
            invariant
                i <= es@.len(),
                forall|j: int| 0 <= j < i ==> (#[trigger] es@[j]).0@ != addr@,
                forall|k: Seq<char>|
                    #[trigger] self@.contains_key(k) ==> exists|j: int| 0 <= j < es@.len() && (#[trigger] es@[j]).0@ == k,
                forall|j: int|
                    0 <= j < es@.len() ==> self@.contains_key((#[trigger] es@[j]).0@),
            decreases es@.len() - i,
        {
            if es[i].0 == *addr {
                return true;
            }
            i = i + 1;
        }
        false
    }

    /// Removes every relay that has expired at time `now` and returns their
    /// addresses; every other relay keeps its entry.
    pub fn expire_at(&mut self, now: i64) -> (gone: Vec<String>)
        ensures
            final(self)@ == after_expiry(old(self)@, now),
            forall|i: int|
                0 <= i < gone@.len() ==> old(self)@.contains_key((#[trigger] gone@[i])@)
                    && is_expired(old(self)@[gone@[i]@], now),
            forall|k: Seq<char>|
                #[trigger] old(self)@.contains_key(k) && is_expired(old(self)@[k], now) ==> exists|i: int|
                    0 <= i < gone@.len() && (#[trigger] gone@[i])@ == k,
            forall|i: int, j: int|
                0 <= i < gone@.len() && 0 <= j < gone@.len() && i != j ==> (#[trigger] gone@[i])@ != (#[trigger] gone@[j])@,
    {
        let ghost before = self@;
        let es = self.snapshot();
        let mut gone: Vec<String> = Vec::new();
        let ghost mut removed: Set<Seq<char>> = Set::empty();
        let mut i: usize = 0;
        while i < es.len()
            invariant
                i <= es@.len(),
                forall|a: int, b: int|
                    0 <= a < es@.len() && 0 <= b < es@.len() && a != b ==> (#[trigger] es@[a]).0@ != (#[trigger] es@[b]).0@,
                forall|a: int|
                    0 <= a < es@.len() ==> before.contains_key((#[trigger] es@[a]).0@) && before[es@[a].0@] == es@[a].1,
                self@ == before.remove_keys(removed),
                forall|k: Seq<char>| #[trigger] removed.contains(k) ==> before.contains_key(k) && is_expired(before[k], now),
                forall|k: Seq<char>| #[trigger] removed.contains(k) ==> exists|a: int| 0 <= a < i && (#[trigger] es@[a]).0@ == k,
                forall|a: int| 0 <= a < i && is_expired((#[trigger] es@[a]).1, now) ==> removed.contains(es@[a].0@),
                forall|g: int| 0 <= g < gone@.len() ==> removed.contains((#[trigger] gone@[g])@),
                forall|k: Seq<char>| #[trigger] removed.contains(k) ==> exists|g: int| 0 <= g < gone@.len() && (#[trigger] gone@[g])@ == k,
                forall|g: int, h: int|
                    0 <= g < gone@.len() && 0 <= h < gone@.len() && g != h ==> (#[trigger] gone@[g])@ != (#[trigger] gone@[h])@,
            decreases es@.len() - i,
        {
            let seen: i64 = es[i].1;
            let elapsed: i128 = (now as i128) - (seen as i128);
            if elapsed > (EXPIRY_MILLIS as i128) {
                let ghost k = es@[i as int].0@;
                proof {
                    if removed.contains(k) {
                        let a: int = choose|a: int| 0 <= a < i && (#[trigger] es@[a]).0@ == k;
                        assert(es@[a].0@ != es@[i as int].0@);
                    }
                }
                let ghost old_gone = gone@;
                let key = es[i].0.clone();
                let _ = table_remove(&mut self.table, key);
                gone.push(es[i].0.clone());
                proof {
                    let old_removed = removed;
                    removed = removed.insert(k);
                    assert(self@ =~= before.remove_keys(removed));
                    assert(gone@[gone@.len() - 1]@ == k);
                    assert forall|q: Seq<char>| #[trigger] removed.contains(q) implies exists|g: int|
                        0 <= g < gone@.len() && (#[trigger] gone@[g])@ == q by {
                        if q != k {
                            assert(old_removed.contains(q));
                            let g: int = choose|g: int| 0 <= g < old_gone.len() && (#[trigger] old_gone[g])@ == q;
                            assert(gone@[g] == old_gone[g]);
                        } else {
                            assert(gone@[gone@.len() - 1]@ == q);
                        }
                    }
                    assert forall|q: Seq<char>| #[trigger] removed.contains(q) implies exists|a: int|
                        0 <= a < i + 1 && (#[trigger] es@[a]).0@ == q by {
                        if q != k {
                            let a: int = choose|a: int| 0 <= a < i && (#[trigger] es@[a]).0@ == q;
                            assert(es@[a].0@ == q);
                        } else {
                            assert(es@[i as int].0@ == q);
                        }
                    }
                }
            }
            i = i + 1;
        }
        proof {
            assert forall|k: Seq<char>|
                #[trigger] old(self)@.contains_key(k) && is_expired(old(self)@[k], now) implies removed.contains(k) by {
                assert(exists|a: int| 0 <= a < es@.len() && (#[trigger] es@[a]).0@ == k);
                let a: int = choose|a: int| 0 <= a < es@.len() && (#[trigger] es@[a]).0@ == k;
                assert(is_expired(es@[a].1, now));
            }
            assert(self@ =~= after_expiry(before, now));
        }
        gone
    }

    /// Removes every relay that has expired by the current time; returns
    /// their addresses and the time against which they were judged.
    pub fn expire(&mut self) -> (r: (Vec<String>, i64))
        ensures
            r.1 >= 0,
            final(self)@ == after_expiry(old(self)@, r.1),
            forall|i: int|
                0 <= i < r.0@.len() ==> old(self)@.contains_key((#[trigger] r.0@[i])@)
                    && is_expired(old(self)@[r.0@[i]@], r.1),
            forall|k: Seq<char>|
                #[trigger] old(self)@.contains_key(k) && is_expired(old(self)@[k], r.1) ==> exists|i: int|
                    0 <= i < r.0@.len() && (#[trigger] r.0@[i])@ == k,
            forall|i: int, j: int|
                0 <= i < r.0@.len() && 0 <= j < r.0@.len() && i != j ==> (#[trigger] r.0@[i])@ != (#[trigger] r.0@[j])@,
    {
        let now: i64 = now_millis();
        let ghost before = self@;
        let gone = self.expire_at(now);
        let r = (gone, now);
        assert forall|k: Seq<char>| #[trigger] before.contains_key(k) && is_expired(before[k], now) implies exists|i: int|
            0 <= i < r.0@.len() && (#[trigger] r.0@[i])@ == k by {
            let i: int = choose|i: int| 0 <= i < gone@.len() && (#[trigger] gone@[i])@ == k;
            assert(r.0@[i] == gone@[i]);
        }
        r
    }
}

/// A relay that has just been recorded is registered, so a bind request for
/// its address does not start a second one.
pub proof fn lemma_recorded_relay_is_running(m: Map<Seq<char>, i64>, addr: Seq<char>, at: i64)
    ensures
        m.insert(addr, at).contains_key(addr),
        m.insert(addr, at)[addr] == at,
{
}

/// A relay survives an expiry exactly when its last recorded activity is
/// at most the expiry period before the expiry time.
pub proof fn lemma_recorded_relay_survives_expiry(m: Map<Seq<char>, i64>, addr: Seq<char>, at: i64, now: i64)
    ensures
        after_expiry(m.insert(addr, at), now).contains_key(addr) <==> now - at <= EXPIRY_MILLIS,
{
}

/// After an expiry no expired relay remains, every remaining relay keeps
/// its time, and a second expiry at the same time changes nothing.
pub proof fn lemma_expiry_leaves_only_live_relays(m: Map<Seq<char>, i64>, now: i64)
    ensures
        forall|k: Seq<char>|
            #[trigger] after_expiry(m, now).contains_key(k) ==> !is_expired(after_expiry(m, now)[k], now)
                && after_expiry(m, now)[k] == m[k],
        after_expiry(after_expiry(m, now), now) == after_expiry(m, now),
{
    assert(after_expiry(after_expiry(m, now), now) =~= after_expiry(m, now));
}

} // verus!
