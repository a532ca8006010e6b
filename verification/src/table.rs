//! The keyed table that every store is built on.
//!
//! A table maps keys to records and is seen in contracts as a `Map` from the
//! views of its keys to the views of its records. It keeps its entries in
//! ascending key order, so that a listing needs no sorting.

use vstd::prelude::*;
use crate::keys::Key;

verus! {

/// The direction of a listing.
#[derive(Clone, Copy, Debug, PartialEq, Eq)]
pub enum Order {
    Ascending,
    Descending,
}

/// What a map holds under a key, if anything.
pub open spec fn lookup<A, B>(m: Map<A, B>, key: A) -> Option<B> {
    if m.contains_key(key) {
        Some(m[key])
    } else {
        None
    }
}

/// The map after an atomic update of one key: the new record is written if
/// the update succeeded, and nothing changes if it failed.
pub open spec fn applied<A, B, E>(m: Map<A, B>, key: A, outcome: Result<B, E>) -> Map<A, B> {
    match outcome {
        Ok(record) => m.insert(key, record),
        Err(_) => m,
    }
}

/// What the caller of an update learns: nothing on success, the error on failure.
pub open spec fn verdict<B, E>(outcome: Result<B, E>) -> Result<(), E> {
    match outcome {
        Ok(_) => Ok(()),
        Err(e) => Err(e),
    }
}

/// The view of a record that may be absent.
pub open spec fn view_of<V: View>(record: Option<&V>) -> Option<V::V> {
    match record {
        Some(r) => Some(r@),
        None => None,
    }
}

/// The view of the outcome of an update.
pub open spec fn outcome_view<V: View, E>(outcome: Result<V, E>) -> Result<V::V, E> {
    match outcome {
        Ok(record) => Ok(record@),
        Err(e) => Err(e),
    }
}

/// The view of a listing that may have been refused.
pub open spec fn listing_view<V: View, E>(outcome: Result<Vec<V>, E>) -> Result<Seq<V::V>, E> {
    match outcome {
        Ok(records) => Ok(views(records@)),
        Err(e) => Err(e),
    }
}

/// Whether `after` and `returned` are what an update of the record under
/// `key` leaves and returns, when the change was given `current` and came
/// back with `outcome`: the change was given what `before` holds under the
/// key, and its record is written if it succeeded and nothing is if it
/// failed.
pub open spec fn is_update<K: Key, V: View, E>(
    before: Map<K::V, V::V>,
    key: K::V,
    current: Option<&V>,
    outcome: Result<V, E>,
    after: Map<K::V, V::V>,
    returned: Result<(), E>,
) -> bool {
    &&& view_of(current) == lookup(before, key)
    &&& after == applied(before, key, outcome_view(outcome))
    &&& returned == verdict(outcome)
}

/// Whether a key lies in the range from `start` (inclusive) to `end` (exclusive).
/// A bound that is `None` does not restrict the range.
pub open spec fn within<K: Key>(start: Option<K::V>, end: Option<K::V>, key: K::V) -> bool {
    &&& start matches Some(s) ==> !K::before(key, s)
    &&& end matches Some(e) ==> K::before(key, e)
}

/// The view of a bound that may be absent.
pub open spec fn bound_of<K: Key>(bound: Option<&K>) -> Option<K::V> {
    match bound {
        Some(k) => Some(k@),
        None => None,
    }
}

/// Whether a listing is strictly ordered by key in the given direction.
pub open spec fn listed_in_order<K: Key, V>(listing: Seq<(&K, &V)>, order: Order) -> bool {
    forall|i: int, j: int|
        0 <= i < j < listing.len() ==> match order {
            Order::Ascending => K::before(
                (#[trigger] listing[i]).0@,
                (#[trigger] listing[j]).0@,
            ),
            Order::Descending => K::before(listing[j].0@, listing[i].0@),
        }
}

/// Whether a listing holds exactly the entries of `m` whose keys lie in the range.
pub open spec fn lists_range<K: Key, V: View>(
    listing: Seq<(&K, &V)>,
    m: Map<K::V, V::V>,
    start: Option<K::V>,
    end: Option<K::V>,
) -> bool {
    &&& forall|i: int|
        0 <= i < listing.len() ==> {
            &&& m.contains_key((#[trigger] listing[i]).0@)
            &&& m[listing[i].0@] == listing[i].1@
            &&& within::<K>(start, end, listing[i].0@)
        }
    &&& forall|k: K::V|
        m.contains_key(k) && within::<K>(start, end, k) ==> exists|i: int|
            0 <= i < listing.len() && (#[trigger] listing[i]).0@ == k
}

/// The views of a sequence of records.
pub open spec fn views<V: View>(records: Seq<V>) -> Seq<V::V> {
    records.map_values(|r: V| r@)
}

/// Whether `keys` holds exactly the keys in `dom`, in ascending order.
pub open spec fn is_key_listing<K: Key>(keys: Seq<K::V>, dom: Set<K::V>) -> bool {
    &&& forall|i: int, j: int|
        0 <= i < j < keys.len() ==> K::before(#[trigger] keys[i], #[trigger] keys[j])
    &&& forall|k: K::V| dom.contains(k) <==> keys.contains(k)
}

/// The keys in `dom` in ascending order.
pub open spec fn key_listing<K: Key>(dom: Set<K::V>) -> Seq<K::V> {
    choose|keys: Seq<K::V>| is_key_listing::<K>(keys, dom)
}

/// The records of a map in ascending order of their keys.
pub open spec fn records_in_key_order<K: Key, R>(m: Map<K::V, R>) -> Seq<R> {
    key_listing::<K>(m.dom()).map_values(|k: K::V| m[k])
}

/// A set has at most one listing of its keys in ascending order.
pub proof fn lemma_key_listing_unique<K: Key>(a: Seq<K::V>, b: Seq<K::V>, dom: Set<K::V>)
    requires
        is_key_listing::<K>(a, dom),
        is_key_listing::<K>(b, dom),
    ensures
        a == b,
    decreases a.len(),
{
    K::lemma_order();
    if a.len() == 0 {
        if b.len() > 0 {
            assert(b.contains(b[0]));
            assert(dom.contains(b[0]));
        }
        assert(a =~= b);
    } else {
        let top = a.last();
        assert(a.contains(top));
        assert(dom.contains(top));
        assert(b.contains(top));
        let at = choose|i: int| 0 <= i < b.len() && b[i] == top;
        if at < b.len() - 1 {
            let beyond = b.last();
            assert(K::before(top, beyond));
            assert(b.contains(beyond));
            assert(a.contains(beyond));
            let back = choose|i: int| 0 <= i < a.len() && a[i] == beyond;
            if back < a.len() - 1 {
                assert(K::before(a[back], a[a.len() - 1]));
            }
        }
        let rest = dom.remove(top);
        let a0 = a.drop_last();
        let b0 = b.drop_last();
        assert forall|k: K::V| rest.contains(k) <==> a0.contains(k) by {
            if a0.contains(k) {
                let i = choose|i: int| 0 <= i < a0.len() && a0[i] == k;
                assert(a[i] == k);
                assert(a.contains(k));
                assert(K::before(a[i], a[a.len() - 1]));
            }
            if rest.contains(k) {
                let i = choose|i: int| 0 <= i < a.len() && a[i] == k;
                assert(a0[i] == k);
            }
        }
        assert forall|k: K::V| rest.contains(k) <==> b0.contains(k) by {
            if b0.contains(k) {
                let i = choose|i: int| 0 <= i < b0.len() && b0[i] == k;
                assert(b[i] == k);
                assert(b.contains(k));
                assert(K::before(b[i], b[b.len() - 1]));
            }
            if rest.contains(k) {
                let i = choose|i: int| 0 <= i < b.len() && b[i] == k;
                assert(b0[i] == k);
            }
        }
        assert forall|i: int, j: int| 0 <= i < j < a0.len() implies K::before(
            #[trigger] a0[i],
            #[trigger] a0[j],
        ) by {
            assert(K::before(a[i], a[j]));
        }
        assert forall|i: int, j: int| 0 <= i < j < b0.len() implies K::before(
            #[trigger] b0[i],
            #[trigger] b0[j],
        ) by {
            assert(K::before(b[i], b[j]));
        }
        lemma_key_listing_unique::<K>(a0, b0, rest);
        assert(a =~= a0.push(top));
        assert(b =~= b0.push(top));
    }
}

/// A listing of a whole map in ascending key order holds the map's records
/// in key order.
pub proof fn lemma_full_listing<K: Key, V: View>(listing: Seq<(&K, &V)>, m: Map<K::V, V::V>)
    requires
        lists_range(listing, m, None, None),
        listed_in_order(listing, Order::Ascending),
    ensures
        listing.map_values(|e: (&K, &V)| e.0@) == key_listing::<K>(m.dom()),
        listing.map_values(|e: (&K, &V)| e.1@) == records_in_key_order::<K, V::V>(m),
{
    let keys = listing.map_values(|e: (&K, &V)| e.0@);
    assert forall|k: K::V| m.dom().contains(k) <==> keys.contains(k) by {
        if m.dom().contains(k) {
            assert(within::<K>(None, None, k));
            let i = choose|i: int| 0 <= i < listing.len() && (#[trigger] listing[i]).0@ == k;
            assert(keys[i] == k);
        }
        if keys.contains(k) {
            let i = choose|i: int| 0 <= i < keys.len() && keys[i] == k;
            assert(listing[i].0@ == k);
        }
    }
    assert forall|i: int, j: int| 0 <= i < j < keys.len() implies K::before(
        #[trigger] keys[i],
        #[trigger] keys[j],
    ) by {
        assert(K::before(listing[i].0@, listing[j].0@));
    }
    assert(is_key_listing::<K>(keys, m.dom()));
    lemma_key_listing_unique::<K>(keys, key_listing::<K>(m.dom()), m.dom());
    assert(listing.map_values(|e: (&K, &V)| e.1@) =~= records_in_key_order::<K, V::V>(m));
}

/// The keys of a listing, in ascending order whatever the direction of the
/// listing.
pub open spec fn ascending_keys<K: Key, V>(listing: Seq<(&K, &V)>, order: Order) -> Seq<K::V> {
    match order {
        Order::Ascending => listing.map_values(|e: (&K, &V)| e.0@),
        Order::Descending => listing.map_values(|e: (&K, &V)| e.0@).reverse(),
    }
}

/// The two clauses of the contract of `Table::range` leave no choice: two
/// listings of the same range of the same map, in the same direction, hold
/// the same keys with the same records at the same places.
pub proof fn lemma_range_listing_unique<K: Key, V: View>(
    a: Seq<(&K, &V)>,
    b: Seq<(&K, &V)>,
    m: Map<K::V, V::V>,
    start: Option<K::V>,
    end: Option<K::V>,
    order: Order,
)
    requires
        lists_range(a, m, start, end),
        listed_in_order(a, order),
        lists_range(b, m, start, end),
        listed_in_order(b, order),
    ensures
        a.len() == b.len(),
        forall|i: int| 0 <= i < a.len() ==> a[i].0@ == b[i].0@ && a[i].1@ == b[i].1@,
{
    let dom = Set::new(|k: K::V| m.contains_key(k) && within::<K>(start, end, k));
    lemma_ascending_keys(a, m, start, end, order);
    lemma_ascending_keys(b, m, start, end, order);
    let ka = ascending_keys(a, order);
    let kb = ascending_keys(b, order);
    lemma_key_listing_unique::<K>(ka, kb, dom);
    assert forall|i: int| 0 <= i < a.len() implies a[i].0@ == b[i].0@ && a[i].1@ == b[i].1@ by {
        match order {
            Order::Ascending => {
                assert(ka[i] == a[i].0@ && kb[i] == b[i].0@);
            },
            Order::Descending => {
                let j = a.len() - 1 - i;
                assert(ka[j] == a[i].0@ && kb[j] == b[i].0@);
            },
        }
    }
}

/// The keys of a listing of a range are the keys of the map in that range,
/// in ascending order.
proof fn lemma_ascending_keys<K: Key, V: View>(
    listing: Seq<(&K, &V)>,
    m: Map<K::V, V::V>,
    start: Option<K::V>,
    end: Option<K::V>,
    order: Order,
)
    requires
        lists_range(listing, m, start, end),
        listed_in_order(listing, order),
    ensures
        ascending_keys(listing, order).len() == listing.len(),
        is_key_listing::<K>(
            ascending_keys(listing, order),
            Set::new(|k: K::V| m.contains_key(k) && within::<K>(start, end, k)),
        ),
{
    let dom = Set::new(|k: K::V| m.contains_key(k) && within::<K>(start, end, k));
    let keys = ascending_keys(listing, order);
    let n = listing.len() as int;
    let place = |i: int|
        match order {
            Order::Ascending => i,
            Order::Descending => n - 1 - i,
        };
    assert forall|i: int| 0 <= i < n implies #[trigger] keys[i] == listing[place(i)].0@ by {}
    assert forall|i: int, j: int| 0 <= i < j < keys.len() implies K::before(
        #[trigger] keys[i],
        #[trigger] keys[j],
    ) by {
        match order {
            Order::Ascending => {
                assert(K::before(listing[i].0@, listing[j].0@));
            },
            Order::Descending => {
                assert(K::before(listing[place(i)].0@, listing[place(j)].0@));
            },
        }
    }
    assert forall|k: K::V| dom.contains(k) <==> keys.contains(k) by {
        if dom.contains(k) {
            let i = choose|i: int| 0 <= i < listing.len() && (#[trigger] listing[i]).0@ == k;
            assert(keys[place(i)] == k);
        }
        if keys.contains(k) {
            let i = choose|i: int| 0 <= i < keys.len() && keys[i] == k;
            assert(listing[place(i)].0@ == k);
        }
    }
}

/// Whether the keys of the entries are strictly ascending.
spec fn ascending<K: Key, V>(s: Seq<(K, V)>) -> bool {
    forall|i: int, j: int|
        0 <= i < j < s.len() ==> K::before((#[trigger] s[i]).0@, (#[trigger] s[j]).0@)
}

/// Whether an entry has the key `k`.
spec fn has<K: Key, V>(s: Seq<(K, V)>, k: K::V) -> bool {
    exists|i: int| 0 <= i < s.len() && (#[trigger] s[i]).0@ == k
}

/// The position of an entry with the key `k`.
spec fn slot<K: Key, V>(s: Seq<(K, V)>, k: K::V) -> int {
    choose|i: int| 0 <= i < s.len() && (#[trigger] s[i]).0@ == k
}

/// The map that the entries stand for.
spec fn as_map<K: Key, V: View>(s: Seq<(K, V)>) -> Map<K::V, V::V> {
    Map::new(|k: K::V| has(s, k), |k: K::V| s[slot(s, k)].1@)
}

/// Each entry of an ascending sequence is the one that the map holds under
/// its key.
proof fn lemma_entry<K: Key, V: View>(s: Seq<(K, V)>, i: int)
    requires
        ascending(s),
        0 <= i < s.len(),
    ensures
        as_map(s).contains_key(s[i].0@),
        as_map(s)[s[i].0@] == s[i].1@,
        slot(s, s[i].0@) == i,
{
    K::lemma_order();
    let k = s[i].0@;
    assert(has(s, k));
    let j = slot(s, k);
    assert(0 <= j < s.len() && s[j].0@ == k);
    if j < i {
        assert(K::before(s[j].0@, s[i].0@));
    } else if i < j {
        assert(K::before(s[i].0@, s[j].0@));
    }
}

/// A key that lies between two neighbouring entries is not in the map.
proof fn lemma_absent<K: Key, V: View>(s: Seq<(K, V)>, k: K::V, p: int)
    requires
        ascending(s),
        0 <= p <= s.len(),
        forall|i: int| 0 <= i < p ==> K::before((#[trigger] s[i]).0@, k),
        forall|i: int| p <= i < s.len() ==> K::before(k, (#[trigger] s[i]).0@),
    ensures
        !as_map(s).contains_key(k),
{
    K::lemma_order();
    if has(s, k) {
        let j = slot(s, k);
        assert(s[j].0@ == k);
    }
}

/// An entry put at the place that its key has in the order adds its key to
/// the map.
proof fn lemma_inserted<K: Key, V: View>(s: Seq<(K, V)>, p: int, e: (K, V))
    requires
        ascending(s),
        0 <= p <= s.len(),
        forall|i: int| 0 <= i < p ==> K::before((#[trigger] s[i]).0@, e.0@),
        forall|i: int| p <= i < s.len() ==> K::before(e.0@, (#[trigger] s[i]).0@),
    ensures
        ascending(s.insert(p, e)),
        as_map(s.insert(p, e)) == as_map(s).insert(e.0@, e.1@),
{
    K::lemma_order();
    let t = s.insert(p, e);
    assert forall|i: int, j: int| 0 <= i < j < t.len() implies K::before(
        (#[trigger] t[i]).0@,
        (#[trigger] t[j]).0@,
    ) by {
        let oi = if i < p { i } else { i - 1 };
        let oj = if j < p { j } else { j - 1 };
        if i != p && j != p {
            assert(t[i] == s[oi] && t[j] == s[oj]);
        } else if i == p {
            assert(t[j] == s[oj]);
        } else {
            assert(t[i] == s[oi]);
        }
    }
    assert forall|k: K::V| as_map(t).contains_key(k) <==> #[trigger] as_map(s).insert(
        e.0@,
        e.1@,
    ).contains_key(k) by {
        if has(t, k) {
            let j = slot(t, k);
            if j < p {
                assert(s[j].0@ == k);
            } else if j > p {
                assert(s[j - 1].0@ == k);
            }
        }
        if has(s, k) {
            let j = slot(s, k);
            if j < p {
                assert(t[j].0@ == k);
            } else {
                assert(t[j + 1].0@ == k);
            }
        }
        if k == e.0@ {
            assert(t[p].0@ == k);
        }
    }
    assert forall|k: K::V| as_map(t).contains_key(k) implies #[trigger] as_map(t)[k] == as_map(
        s,
    ).insert(e.0@, e.1@)[k] by {
        let j = slot(t, k);
        lemma_entry(t, j);
        if j < p {
            assert(t[j] == s[j]);
            lemma_entry(s, j);
        } else if j > p {
            assert(t[j] == s[j - 1]);
            lemma_entry(s, j - 1);
        }
    }
    assert(as_map(t) =~= as_map(s).insert(e.0@, e.1@));
}

/// An entry put in place of the entry with its key overwrites the record
/// under that key.
proof fn lemma_replaced<K: Key, V: View>(s: Seq<(K, V)>, p: int, e: (K, V))
    requires
        ascending(s),
        0 <= p < s.len(),
        s[p].0@ == e.0@,
    ensures
        ascending(s.update(p, e)),
        as_map(s.update(p, e)) == as_map(s).insert(e.0@, e.1@),
{
    let t = s.update(p, e);
    assert(t.len() == s.len());
    assert forall|i: int, j: int| 0 <= i < j < t.len() implies K::before(
        (#[trigger] t[i]).0@,
        (#[trigger] t[j]).0@,
    ) by {
        assert(K::before(s[i].0@, s[j].0@));
        assert(t[i].0@ == s[i].0@ && t[j].0@ == s[j].0@);
    }
    assert forall|k: K::V| as_map(t).contains_key(k) <==> #[trigger] as_map(s).insert(
        e.0@,
        e.1@,
    ).contains_key(k) by {
        if has(t, k) {
            let j = slot(t, k);
            assert(s[j].0@ == k);
        }
        if has(s, k) {
            let j = slot(s, k);
            assert(t[j].0@ == k);
        }
        if k == e.0@ {
            assert(t[p].0@ == k);
        }
    }
    assert forall|k: K::V| as_map(t).contains_key(k) implies #[trigger] as_map(t)[k] == as_map(
        s,
    ).insert(e.0@, e.1@)[k] by {
        let j = slot(t, k);
        lemma_entry(t, j);
        lemma_entry(s, j);
        lemma_entry(s, p);
        if j != p {
            assert(t[j] == s[j]);
        }
    }
    assert(as_map(t) =~= as_map(s).insert(e.0@, e.1@));
}

/// Taking an entry out takes its key out of the map.
proof fn lemma_removed<K: Key, V: View>(s: Seq<(K, V)>, p: int)
    requires
        ascending(s),
        0 <= p < s.len(),
    ensures
        ascending(s.remove(p)),
        as_map(s.remove(p)) == as_map(s).remove(s[p].0@),
{
    K::lemma_order();
    let t = s.remove(p);
    let gone = s[p].0@;
    assert forall|i: int, j: int| 0 <= i < j < t.len() implies K::before(
        (#[trigger] t[i]).0@,
        (#[trigger] t[j]).0@,
    ) by {
        let oi = if i < p { i } else { i + 1 };
        let oj = if j < p { j } else { j + 1 };
        assert(t[i] == s[oi] && t[j] == s[oj]);
    }
    assert forall|k: K::V| as_map(t).contains_key(k) <==> #[trigger] as_map(s).remove(
        gone,
    ).contains_key(k) by {
        if has(t, k) {
            let j = slot(t, k);
            let oj = if j < p { j } else { j + 1 };
            assert(t[j] == s[oj]);
            assert(s[oj].0@ == k);
            lemma_entry(s, oj);
            lemma_entry(s, p);
        }
        if has(s, k) && k != gone {
            let j = slot(s, k);
            if j < p {
                assert(t[j].0@ == k);
            } else {
                assert(t[j - 1].0@ == k);
            }
        }
    }
    assert forall|k: K::V| as_map(t).contains_key(k) implies #[trigger] as_map(t)[k] == as_map(
        s,
    ).remove(gone)[k] by {
        let j = slot(t, k);
        let oj = if j < p { j } else { j + 1 };
        lemma_entry(t, j);
        assert(t[j] == s[oj]);
        lemma_entry(s, oj);
    }
    assert(as_map(t) =~= as_map(s).remove(gone));
}

/// The map holds as many keys as there are entries.
proof fn lemma_counted<K: Key, V: View>(s: Seq<(K, V)>)
    requires
        ascending(s),
    ensures
        as_map(s).dom().finite(),
        as_map(s).dom().len() == s.len(),
    decreases s.len(),
{
    if s.len() == 0 {
        assert(as_map(s).dom() =~= Set::<K::V>::empty());
    } else {
        let p = s.len() - 1;
        let front = s.remove(p);
        lemma_removed(s, p);
        lemma_counted(front);
        lemma_entry(s, p);
        assert(as_map(s).dom() =~= as_map(front).dom().insert(s[p].0@));
    }
}

/// A table of records under unique keys, held in ascending key order.
pub struct Table<K: Key, V: View> {
    entries: Vec<(K, V)>,
}

impl<K: Key, V: View> View for Table<K, V> {
    type V = Map<K::V, V::V>;

    closed spec fn view(&self) -> Map<K::V, V::V> {
        as_map(self.entries@)
    }
}

impl<K: Key, V: View> Table<K, V> {
    #[verifier::type_invariant]
    spec fn well_formed(self) -> bool {
        ascending(self.entries@)
    }

    /// An empty table.
    pub fn new() -> (table: Self)
        ensures
            table@ == Map::<K::V, V::V>::empty(),
    {
        let table = Table { entries: Vec::new() };
        assert(table@ =~= Map::<K::V, V::V>::empty());
        table
    }

    /// The number of records.
    pub fn len(&self) -> (n: usize)
        ensures
            self@.dom().finite(),
            n == self@.dom().len(),
    {
        proof {
            use_type_invariant(self);
            lemma_counted(self.entries@);
        }
        self.entries.len()
    }

    /// The number of entries whose keys come before `key`.
    fn rank(&self, key: &K) -> (p: usize)
        ensures
            p <= self.entries@.len(),
            forall|i: int| 0 <= i < p ==> K::before((#[trigger] self.entries@[i]).0@, key@),
            forall|i: int|
                p <= i < self.entries@.len() ==> !K::before(
                    (#[trigger] self.entries@[i]).0@,
                    key@,
                ),
    {
        proof {
            use_type_invariant(self);
            K::lemma_order();
        }
        let mut low: usize = 0;
        let mut high: usize = self.entries.len();
        while low < high
            invariant
                low <= high <= self.entries@.len(),
                ascending(self.entries@),
                forall|i: int| 0 <= i < low ==> K::before((#[trigger] self.entries@[i]).0@, key@),
                forall|i: int|
                    high <= i < self.entries@.len() ==> !K::before(
                        (#[trigger] self.entries@[i]).0@,
                        key@,
                    ),
            decreases high - low,
        {
            proof {
                K::lemma_order();
            }
            let middle = low + (high - low) / 2;
            if self.entries[middle].0.precedes(key) {
                low = middle + 1;
            } else {
                high = middle;
            }
        }
        low
    }

    /// Whether the entry at position `p`, the rank of `key`, holds `key`.
    fn holds_at(&self, p: usize, key: &K) -> (found: bool)
        requires
            p <= self.entries@.len(),
            forall|i: int| 0 <= i < p ==> K::before((#[trigger] self.entries@[i]).0@, key@),
            forall|i: int|
                p <= i < self.entries@.len() ==> !K::before(
                    (#[trigger] self.entries@[i]).0@,
                    key@,
                ),
        ensures
            found == self@.contains_key(key@),
            found ==> p < self.entries@.len() && self.entries@[p as int].0@ == key@,
            !found ==> forall|i: int|
                p <= i < self.entries@.len() ==> K::before(
                    key@,
                    (#[trigger] self.entries@[i]).0@,
                ),
    {
        proof {
            use_type_invariant(self);
            K::lemma_order();
        }
        if p < self.entries.len() && !key.precedes(&self.entries[p].0) {
            proof {
                lemma_entry(self.entries@, p as int);
            }
            true
        } else {
            proof {
                assert forall|i: int| p <= i < self.entries@.len() implies K::before(
                    key@,
                    (#[trigger] self.entries@[i]).0@,
                ) by {
                    if i > p {
                        assert(K::before(self.entries@[p as int].0@, self.entries@[i].0@));
                    }
                }
                lemma_absent(self.entries@, key@, p as int);
            }
            false
        }
    }

    /// Whether a record is stored under `key`.
    pub fn contains_key(&self, key: &K) -> (found: bool)
        ensures
            found == self@.contains_key(key@),
    {
        let p = self.rank(key);
        self.holds_at(p, key)
    }

    /// The record stored under `key`, if there is one.
    pub fn get(&self, key: &K) -> (record: Option<&V>)
        ensures
            view_of(record) == lookup(self@, key@),
    {
        let p = self.rank(key);
        if self.holds_at(p, key) {
            proof {
                use_type_invariant(self);
                lemma_entry(self.entries@, p as int);
            }
            Some(&self.entries[p].1)
        } else {
            None
        }
    }

    /// Stores `record` under `key`, in place of what was there before.
    pub fn put(&mut self, key: K, record: V)
        ensures
            final(self)@ == old(self)@.insert(key@, record@),
    {
        proof {
            use_type_invariant(&*self);
        }
        let p = self.rank(&key);
        let found = self.holds_at(p, &key);
        let mut entries: Vec<(K, V)> = Vec::new();
        std::mem::swap(&mut entries, &mut self.entries);
        if found {
            proof {
                lemma_replaced(entries@, p as int, (key, record));
            }
            entries.set(p, (key, record));
        } else {
            proof {
                lemma_inserted(entries@, p as int, (key, record));
            }
            entries.insert(p, (key, record));
        }
        self.entries = entries;
    }

    /// Loads what is stored under `key`, hands it to `change` and, if `change`
    /// succeeds, stores the record it returns under `key`. If `change` fails,
    /// the table is left as it was and the error is returned.
    pub fn update<E, F: FnOnce(Option<&V>) -> Result<V, E>>(&mut self, key: K, change: F) -> (r:
        Result<(), E>)
        requires
            forall|current: Option<&V>|
                view_of(current) == lookup(old(self)@, key@) ==> change.requires((current,)),
        ensures
            exists|current: Option<&V>, outcome: Result<V, E>|
                change.ensures((current,), outcome) && is_update::<K, V, E>(
                    old(self)@,
                    key@,
                    current,
                    outcome,
                    final(self)@,
                    r,
                ),
    {
        let current = self.get(&key);
        let ghost given = current;
        let outcome = change(current);
        let ghost made = outcome;
        match outcome {
            Ok(record) => {
                self.put(key, record);
                assert(is_update::<K, V, E>(old(self)@, key@, given, made, self@, Ok(())));
                Ok(())
            },
            Err(e) => {
                assert(is_update::<K, V, E>(old(self)@, key@, given, made, self@, Err(e)));
                Err(e)
            },
        }
    }

    /// The entries whose keys lie between `start` (inclusive) and `end`
    /// (exclusive), in the given key order.
    pub fn range<'a>(&'a self, start: Option<&K>, end: Option<&K>, order: Order) -> (listing: Vec<
        (&'a K, &'a V),
    >)
        ensures
            lists_range(listing@, self@, bound_of(start), bound_of(end)),
            listed_in_order(listing@, order),
    {
        proof {
            use_type_invariant(self);
            K::lemma_order();
        }
        let low = match start {
            Some(k) => self.rank(k),
            None => 0,
        };
        let high = match end {
            Some(k) => self.rank(k),
            None => self.entries.len(),
        };
        let ghost s = self.entries@;
        let ghost m = self@;
        let ghost from = bound_of(start);
        let ghost to = bound_of(end);
        let mut listing: Vec<(&'a K, &'a V)> = Vec::new();
        if low < high {
            let mut i: usize = low;
            while i < high
                invariant
                    low <= i <= high <= s.len(),
                    s == self.entries@,
                    ascending(s),
                    listing@.len() == i - low,
                    forall|n: int|
                        0 <= n < listing@.len() ==> {
                            &&& (#[trigger] listing@[n]).0@ == s[match order {
                                Order::Ascending => low + n,
                                Order::Descending => high - 1 - n,
                            }].0@
                            &&& listing@[n].1@ == s[match order {
                                Order::Ascending => low + n,
                                Order::Descending => high - 1 - n,
                            }].1@
                        },
                decreases high - i,
            {
                let at = match order {
                    Order::Ascending => i,
                    Order::Descending => high - 1 - (i - low),
                };
                listing.push((&self.entries[at].0, &self.entries[at].1));
                i += 1;
            }
        }
        proof {
            let count = listing@.len() as int;
            let place = |n: int|
                match order {
                    Order::Ascending => low + n,
                    Order::Descending => high - 1 - n,
                };
            assert forall|n: int| 0 <= n < count implies {
                &&& m.contains_key((#[trigger] listing@[n]).0@)
                &&& m[listing@[n].0@] == listing@[n].1@
                &&& within::<K>(from, to, listing@[n].0@)
            } by {
                let at = place(n);
                assert(low <= at < high);
                lemma_entry(s, at);
                assert(listing@[n].0@ == s[at].0@);
            }
            assert forall|k: K::V| m.contains_key(k) && within::<K>(from, to, k) implies exists|
                n: int,
            |
                0 <= n < count && (#[trigger] listing@[n]).0@ == k by {
                let at = slot(s, k);
                assert(0 <= at < s.len() && s[at].0@ == k);
                assert(low <= at < high);
                let n = match order {
                    Order::Ascending => at - low,
                    Order::Descending => high - 1 - at,
                };
                assert(place(n) == at);
                assert(listing@[n].0@ == k);
            }
            assert forall|a: int, b: int| 0 <= a < b < count implies match order {
                Order::Ascending => K::before(
                    (#[trigger] listing@[a]).0@,
                    (#[trigger] listing@[b]).0@,
                ),
                Order::Descending => K::before(listing@[b].0@, listing@[a].0@),
            } by {
                let pa = place(a);
                let pb = place(b);
                assert(listing@[a].0@ == s[pa].0@);
                assert(listing@[b].0@ == s[pb].0@);
                if pa < pb {
                    assert(K::before(s[pa].0@, s[pb].0@));
                } else {
                    assert(K::before(s[pb].0@, s[pa].0@));
                }
            }
        }
        listing
    }

    /// Removes the record stored under `key`, if there is one.
    pub fn delete(&mut self, key: &K)
        ensures
            final(self)@ == old(self)@.remove(key@),
    {
        proof {
            use_type_invariant(&*self);
        }
        let p = self.rank(key);
        if self.holds_at(p, key) {
            let mut entries: Vec<(K, V)> = Vec::new();
            std::mem::swap(&mut entries, &mut self.entries);
            proof {
                lemma_removed(entries@, p as int);
            }
            entries.remove(p);
            self.entries = entries;
        } else {
            assert(self@.remove(key@) =~= self@);
        }
    }
}

} // verus!
