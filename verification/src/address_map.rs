//! A map from addresses to values that lists its entries in ascending order
//! of address, one page at a time.
//!
//! The map's view is a plain `Map`. What a listing returns is stated over
//! [`listing`], the one ascending enumeration of that map, so every contract
//! here is a statement about the map's contents alone.

use crate::text::addr_lt;
use crate::text::address_lt;
use crate::text::lemma_addr_lt_asymmetric;
use crate::text::lemma_addr_lt_irreflexive;
use crate::text::lemma_addr_lt_total;
use crate::text::lemma_addr_lt_transitive;
use crate::text::opt_view;
use vstd::prelude::*;

verus! {

/// The entries of `s` stand in strictly ascending order of address.
pub open spec fn ascending<V>(s: Seq<(Seq<char>, V)>) -> bool {
    forall|i: int, j: int|
        #![trigger s[i], s[j]]
        0 <= i < j < s.len() ==> addr_lt(s[i].0, s[j].0)
}

/// `s` enumerates exactly the entries of `m`, in ascending order of address.
pub open spec fn is_listing<V>(s: Seq<(Seq<char>, V)>, m: Map<Seq<char>, V>) -> bool {
    &&& ascending(s)
    &&& forall|i: int|
        #![trigger s[i]]
        0 <= i < s.len() ==> m.contains_key(s[i].0) && m[s[i].0] == s[i].1
    &&& forall|k: Seq<char>| #[trigger]
        m.contains_key(k) ==> exists|i: int| #![trigger s[i]] 0 <= i < s.len() && s[i].0 == k
}

/// The entries of `m` in ascending order of address. It is meaningful for
/// the finite maps that an [`AddressMap`] holds, and unique for them.
pub open spec fn listing<V>(m: Map<Seq<char>, V>) -> Seq<(Seq<char>, V)> {
    choose|s: Seq<(Seq<char>, V)>| is_listing(s, m)
}

/// `m` has an ascending enumeration, as every finite map has.
pub open spec fn listable<V>(m: Map<Seq<char>, V>) -> bool {
    is_listing(listing(m), m)
}

/// The test that an entry's address sorts strictly after `c`.
pub open spec fn sorts_after<V>(c: Seq<char>) -> spec_fn((Seq<char>, V)) -> bool {
    |e: (Seq<char>, V)| addr_lt(c, e.0)
}

/// The entries of `s` whose address sorts strictly after the cursor; all of
/// them where there is no cursor.
pub open spec fn after_cursor<V>(s: Seq<(Seq<char>, V)>, cursor: Option<Seq<char>>) -> Seq<
    (Seq<char>, V),
> {
    match cursor {
        Some(c) => s.filter(sorts_after(c)),
        None => s,
    }
}

/// One page of `s`: the first `limit` entries after the cursor, or all of
/// them where fewer are left.
pub open spec fn page<V>(s: Seq<(Seq<char>, V)>, cursor: Option<Seq<char>>, limit: nat) -> Seq<
    (Seq<char>, V),
> {
    let rest = after_cursor(s, cursor);
    if limit <= rest.len() {
        rest.take(limit as int)
    } else {
        rest
    }
}

/// Whether some entry of `s` stands under the address `k`.
pub open spec fn has_address<V>(s: Seq<(Seq<char>, V)>, k: Seq<char>) -> bool {
    exists|i: int| #![trigger s[i]] 0 <= i < s.len() && s[i].0 == k
}

/// An index at which `k` stands in `s`, where there is one.
pub open spec fn index_of<V>(s: Seq<(Seq<char>, V)>, k: Seq<char>) -> int {
    choose|i: int| #![trigger s[i]] 0 <= i < s.len() && s[i].0 == k
}

/// The map that holds the entries of `s`.
pub open spec fn contents<V>(s: Seq<(Seq<char>, V)>) -> Map<Seq<char>, V> {
    Map::new(|k: Seq<char>| has_address(s, k), |k: Seq<char>| s[index_of(s, k)].1)
}

/// In an ascending sequence an address stands at one index only.
pub proof fn lemma_ascending_index_unique<V>(s: Seq<(Seq<char>, V)>, i: int, j: int)
    requires
        ascending(s),
        0 <= i < s.len(),
        0 <= j < s.len(),
        s[i].0 == s[j].0,
    ensures
        i == j,
{
    lemma_addr_lt_irreflexive(s[i].0);
}

/// An ascending sequence lists the map that holds its entries.
pub proof fn lemma_contents_listing<V>(s: Seq<(Seq<char>, V)>)
    requires
        ascending(s),
    ensures
        is_listing(s, contents(s)),
{
    let m = contents(s);
    assert forall|i: int| #![trigger s[i]] 0 <= i < s.len() implies m.contains_key(s[i].0)
        && m[s[i].0] == s[i].1 by {
        let k = s[i].0;
        lemma_ascending_index_unique(s, i, index_of(s, k));
    }
}

/// Without its first entry, a listing lists the map without that address.
pub proof fn lemma_listing_tail<V>(s: Seq<(Seq<char>, V)>, m: Map<Seq<char>, V>)
    requires
        is_listing(s, m),
        s.len() > 0,
    ensures
        is_listing(s.drop_first(), m.remove(s[0].0)),
{
    let t = s.drop_first();
    let r = m.remove(s[0].0);
    assert(ascending(t));
    assert forall|i: int| #![trigger t[i]] 0 <= i < t.len() implies r.contains_key(t[i].0)
        && r[t[i].0] == t[i].1 by {
        lemma_addr_lt_irreflexive(s[0].0);
    }
    assert forall|k: Seq<char>| #[trigger] r.contains_key(k) implies exists|i: int|
        #![trigger t[i]]
        0 <= i < t.len() && t[i].0 == k by {
        let i = index_of(s, k);
        assert(t[i - 1] == s[i]);
    }
}

/// A map has at most one ascending enumeration.
pub proof fn lemma_listing_unique<V>(
    s1: Seq<(Seq<char>, V)>,
    s2: Seq<(Seq<char>, V)>,
    m: Map<Seq<char>, V>,
)
    requires
        is_listing(s1, m),
        is_listing(s2, m),
    ensures
        s1 == s2,
    decreases s1.len(),
{
    if s1.len() == 0 {
        if s2.len() > 0 {
            assert(m.contains_key(s2[0].0));
        }
    } else {
        // both begin with the least address of the map
        let k1 = s1[0].0;
        let k2 = s2[0].0;
        assert(m.contains_key(k1) && m.contains_key(k2));
        let i = index_of(s1, k2);
        let j = index_of(s2, k1);
        if i > 0 && j > 0 {
            lemma_addr_lt_asymmetric(k1, k2);
        }
        lemma_listing_tail(s1, m);
        lemma_listing_tail(s2, m);
        lemma_listing_unique(s1.drop_first(), s2.drop_first(), m.remove(k1));
        assert(s1 =~= seq![s1[0]] + s1.drop_first());
    }
}

/// An ascending sequence is the listing of the map that holds its entries.
pub proof fn lemma_listing_of_contents<V>(s: Seq<(Seq<char>, V)>)
    requires
        ascending(s),
    ensures
        listing(contents(s)) == s,
        listable(contents(s)),
{
    lemma_contents_listing(s);
    lemma_listing_unique(listing(contents(s)), s, contents(s));
}

/// Where the entries up to `k` do not sort after the cursor and those from `k`
/// on do, the entries after the cursor are those from `k` on.
pub proof fn lemma_after_cursor_is_suffix<V>(s: Seq<(Seq<char>, V)>, c: Seq<char>, k: int)
    requires
        0 <= k <= s.len(),
        forall|i: int| #![trigger s[i]] 0 <= i < k ==> !addr_lt(c, s[i].0),
        forall|i: int| #![trigger s[i]] k <= i < s.len() ==> addr_lt(c, s[i].0),
    ensures
        after_cursor(s, Some(c)) == s.skip(k),
    decreases s.len(),
{
    reveal(Seq::filter);
    if s.len() > 0 {
        let init = s.drop_last();
        if k == s.len() {
            lemma_after_cursor_is_suffix(init, c, k - 1);
        } else {
            lemma_after_cursor_is_suffix(init, c, k);
        }
    }
}

/// Two maps with one and the same listing are the same map.
pub proof fn lemma_listing_determines_map<V>(
    s: Seq<(Seq<char>, V)>,
    m1: Map<Seq<char>, V>,
    m2: Map<Seq<char>, V>,
)
    requires
        is_listing(s, m1),
        is_listing(s, m2),
    ensures
        m1 == m2,
{
    assert(m1 =~= m2);
}

/// Putting a new address at its place keeps the order and adds the entry.
pub proof fn lemma_insert_entry<V>(s: Seq<(Seq<char>, V)>, pos: int, k: Seq<char>, v: V)
    requires
        ascending(s),
        0 <= pos <= s.len(),
        forall|i: int| #![trigger s[i]] 0 <= i < pos ==> addr_lt(s[i].0, k),
        forall|i: int| #![trigger s[i]] pos <= i < s.len() ==> !addr_lt(s[i].0, k),
        pos < s.len() ==> s[pos].0 != k,
    ensures
        ascending(s.insert(pos, (k, v))),
        contents(s.insert(pos, (k, v))) == contents(s).insert(k, v),
{
    let t = s.insert(pos, (k, v));
    let m = contents(s);
    let target = m.insert(k, v);
    lemma_contents_listing(s);
    assert forall|i: int| #![trigger s[i]] pos <= i < s.len() implies addr_lt(k, s[i].0) by {
        lemma_addr_lt_total(k, s[i].0);
    }
    assert forall|i: int, j: int| #![trigger t[i], t[j]] 0 <= i < j < t.len() implies addr_lt(
        t[i].0,
        t[j].0,
    ) by {
        if i < pos < j {
            lemma_addr_lt_transitive(s[i].0, k, s[j - 1].0);
        }
    }
    assert forall|i: int| #![trigger t[i]] 0 <= i < t.len() implies target.contains_key(t[i].0)
        && target[t[i].0] == t[i].1 by {
        lemma_addr_lt_irreflexive(k);
    }
    assert forall|a: Seq<char>| #[trigger] target.contains_key(a) implies exists|i: int|
        #![trigger t[i]]
        0 <= i < t.len() && t[i].0 == a by {
        if a == k {
            assert(t[pos].0 == a);
        } else {
            let i = index_of(s, a);
            if i < pos {
                assert(t[i] == s[i]);
            } else {
                assert(t[i + 1] == s[i]);
            }
        }
    }
    lemma_contents_listing(t);
    lemma_listing_determines_map(t, contents(t), target);
}

/// Writing a new value under an address that is present keeps the order and
/// replaces the entry.
pub proof fn lemma_update_entry<V>(s: Seq<(Seq<char>, V)>, pos: int, v: V)
    requires
        ascending(s),
        0 <= pos < s.len(),
    ensures
        ascending(s.update(pos, (s[pos].0, v))),
        contents(s.update(pos, (s[pos].0, v))) == contents(s).insert(s[pos].0, v),
{
    let k = s[pos].0;
    let t = s.update(pos, (k, v));
    let target = contents(s).insert(k, v);
    lemma_contents_listing(s);
    assert(ascending(t));
    assert forall|i: int| #![trigger t[i]] 0 <= i < t.len() implies target.contains_key(t[i].0)
        && target[t[i].0] == t[i].1 by {
        if i != pos && s[i].0 == k {
            lemma_ascending_index_unique(s, i, pos);
        }
    }
    assert forall|a: Seq<char>| #[trigger] target.contains_key(a) implies exists|i: int|
        #![trigger t[i]]
        0 <= i < t.len() && t[i].0 == a by {
        if a == k {
            assert(t[pos].0 == a);
        } else {
            let i = index_of(s, a);
            assert(t[i].0 == s[i].0);
        }
    }
    lemma_contents_listing(t);
    lemma_listing_determines_map(t, contents(t), target);
}

/// Taking an entry out keeps the order and removes its address.
pub proof fn lemma_remove_entry<V>(s: Seq<(Seq<char>, V)>, pos: int)
    requires
        ascending(s),
        0 <= pos < s.len(),
    ensures
        ascending(s.remove(pos)),
        contents(s.remove(pos)) == contents(s).remove(s[pos].0),
{
    let k = s[pos].0;
    let t = s.remove(pos);
    let target = contents(s).remove(k);
    lemma_contents_listing(s);
    assert forall|i: int, j: int| #![trigger t[i], t[j]] 0 <= i < j < t.len() implies addr_lt(
        t[i].0,
        t[j].0,
    ) by {
        let i0 = if i < pos { i } else { i + 1 };
        let j0 = if j < pos { j } else { j + 1 };
        assert(addr_lt(s[i0].0, s[j0].0));
    }
    assert forall|i: int| #![trigger t[i]] 0 <= i < t.len() implies target.contains_key(t[i].0)
        && target[t[i].0] == t[i].1 by {
        let i0 = if i < pos { i } else { i + 1 };
        if s[i0].0 == k {
            lemma_ascending_index_unique(s, i0, pos);
        }
    }
    assert forall|a: Seq<char>| #[trigger] target.contains_key(a) implies exists|i: int|
        #![trigger t[i]]
        0 <= i < t.len() && t[i].0 == a by {
        let i = index_of(s, a);
        if i < pos {
            assert(t[i] == s[i]);
        } else {
            assert(t[i - 1] == s[i]);
        }
    }
    lemma_contents_listing(t);
    lemma_listing_determines_map(t, contents(t), target);
}

/// A listing holds the entries of its map and no others.
pub proof fn lemma_listing_contents<V>(s: Seq<(Seq<char>, V)>, m: Map<Seq<char>, V>)
    requires
        is_listing(s, m),
    ensures
        contents(s) == m,
{
    lemma_contents_listing(s);
    lemma_listing_determines_map(s, contents(s), m);
}

/// The number of entries at the head of `s` that sort before `k`.
pub open spec fn rank<V>(s: Seq<(Seq<char>, V)>, k: Seq<char>) -> int
    decreases s.len(),
{
    if s.len() == 0 || !addr_lt(s[0].0, k) {
        0
    } else {
        1 + rank(s.drop_first(), k)
    }
}

/// In an ascending sequence the entries that sort before `k` are the first
/// `rank(s, k)`.
pub proof fn lemma_rank_splits<V>(s: Seq<(Seq<char>, V)>, k: Seq<char>)
    requires
        ascending(s),
    ensures
        0 <= rank(s, k) <= s.len(),
        forall|i: int| #![trigger s[i]] 0 <= i < rank(s, k) ==> addr_lt(s[i].0, k),
        forall|i: int| #![trigger s[i]] rank(s, k) <= i < s.len() ==> !addr_lt(s[i].0, k),
    decreases s.len(),
{
    if s.len() > 0 && !addr_lt(s[0].0, k) {
        assert forall|i: int| #![trigger s[i]] 0 <= i < s.len() implies !addr_lt(s[i].0, k) by {
            if i > 0 && addr_lt(s[i].0, k) {
                lemma_addr_lt_transitive(s[0].0, s[i].0, k);
            }
        }
    } else if s.len() > 0 {
        let t = s.drop_first();
        assert(ascending(t));
        lemma_rank_splits(t, k);
        assert forall|i: int| #![trigger s[i]] 0 <= i < rank(s, k) implies addr_lt(s[i].0, k) by {
            if i > 0 {
                assert(t[i - 1] == s[i]);
            }
        }
        assert forall|i: int| #![trigger s[i]] rank(s, k) <= i < s.len() implies !addr_lt(
            s[i].0,
            k,
        ) by {
            assert(t[i - 1] == s[i]);
        }
    }
}

/// A finite map stays finite when an address is taken out.
pub proof fn lemma_listable_remove<V>(m: Map<Seq<char>, V>, k: Seq<char>)
    requires
        listable(m),
    ensures
        listable(m.remove(k)),
{
    let s = listing(m);
    lemma_listing_contents(s, m);
    if m.contains_key(k) {
        let pos = index_of(s, k);
        lemma_remove_entry(s, pos);
        lemma_listing_of_contents(s.remove(pos));
    } else {
        assert(m.remove(k) =~= m);
    }
}

/// A finite map stays finite when an entry is written.
pub proof fn lemma_listable_insert<V>(m: Map<Seq<char>, V>, k: Seq<char>, v: V)
    requires
        listable(m),
    ensures
        listable(m.insert(k, v)),
{
    let s = listing(m);
    lemma_listing_contents(s, m);
    if m.contains_key(k) {
        let pos = index_of(s, k);
        lemma_update_entry(s, pos, v);
        lemma_listing_of_contents(s.update(pos, (k, v)));
    } else {
        lemma_rank_splits(s, k);
        let pos = rank(s, k);
        lemma_insert_entry(s, pos, k, v);
        lemma_listing_of_contents(s.insert(pos, (k, v)));
    }
}

/// The map without entries is finite.
pub proof fn lemma_listable_empty<V>()
    ensures
        listable(Map::<Seq<char>, V>::empty()),
{
    let s = Seq::<(Seq<char>, V)>::empty();
    lemma_listing_of_contents(s);
    assert(contents(s) =~= Map::<Seq<char>, V>::empty());
}

/// The entries after a cursor keep their order, come from the sequence, and
/// all sort after the cursor.
pub proof fn lemma_after_cursor<V>(s: Seq<(Seq<char>, V)>, c: Seq<char>)
    requires
        ascending(s),
    ensures
        ascending(after_cursor(s, Some(c))),
        after_cursor(s, Some(c)).len() <= s.len(),
        forall|i: int|
            #![trigger after_cursor(s, Some(c))[i]]
            0 <= i < after_cursor(s, Some(c)).len() ==> addr_lt(c, after_cursor(s, Some(c))[i].0)
                && s.contains(after_cursor(s, Some(c))[i]),
        forall|j: int|
            #![trigger s[j]]
            0 <= j < s.len() && addr_lt(c, s[j].0) ==> after_cursor(s, Some(c)).contains(s[j]),
{
    // the entries that do not sort after the cursor are a prefix of `s`
    let k = upper_rank(s, c);
    lemma_upper_rank_splits(s, c);
    lemma_after_cursor_is_suffix(s, c, k);
    let t = s.skip(k);
    assert(ascending(t));
    assert forall|i: int| #![trigger t[i]] 0 <= i < t.len() implies addr_lt(c, t[i].0)
        && s.contains(t[i]) by {
        assert(t[i] == s[i + k]);
    }
    assert forall|j: int| #![trigger s[j]] 0 <= j < s.len() && addr_lt(c, s[j].0) implies t.contains(
        s[j],
    ) by {
        assert(t[j - k] == s[j]);
    }
}

/// The number of entries at the head of `s` that do not sort after `c`.
pub open spec fn upper_rank<V>(s: Seq<(Seq<char>, V)>, c: Seq<char>) -> int
    decreases s.len(),
{
    if s.len() == 0 || addr_lt(c, s[0].0) {
        0
    } else {
        1 + upper_rank(s.drop_first(), c)
    }
}

/// In an ascending sequence the entries that sort after `c` are those from
/// `upper_rank(s, c)` on.
pub proof fn lemma_upper_rank_splits<V>(s: Seq<(Seq<char>, V)>, c: Seq<char>)
    requires
        ascending(s),
    ensures
        0 <= upper_rank(s, c) <= s.len(),
        forall|i: int| #![trigger s[i]] 0 <= i < upper_rank(s, c) ==> !addr_lt(c, s[i].0),
        forall|i: int| #![trigger s[i]] upper_rank(s, c) <= i < s.len() ==> addr_lt(c, s[i].0),
    decreases s.len(),
{
    if s.len() > 0 && addr_lt(c, s[0].0) {
        assert forall|i: int| #![trigger s[i]] 0 <= i < s.len() implies addr_lt(c, s[i].0) by {
            if i > 0 {
                lemma_addr_lt_transitive(c, s[0].0, s[i].0);
            }
        }
    } else if s.len() > 0 {
        let t = s.drop_first();
        assert(ascending(t));
        lemma_upper_rank_splits(t, c);
        assert forall|i: int| #![trigger s[i]] 0 <= i < upper_rank(s, c) implies !addr_lt(
            c,
            s[i].0,
        ) by {
            if i > 0 {
                assert(t[i - 1] == s[i]);
            }
        }
        assert forall|i: int| #![trigger s[i]] upper_rank(s, c) <= i < s.len() implies addr_lt(
            c,
            s[i].0,
        ) by {
            assert(t[i - 1] == s[i]);
        }
    }
}

/// What a page of a finite map holds: entries of the map, in ascending order
/// of address, all after the cursor, no more than the limit; and it leaves
/// out no entry that sorts between the cursor and its own last entry.
pub proof fn lemma_page<V>(m: Map<Seq<char>, V>, cursor: Option<Seq<char>>, limit: nat)
    requires
        listable(m),
    ensures
        ascending(page(listing(m), cursor, limit)),
        page(listing(m), cursor, limit).len() <= limit,
        page(listing(m), cursor, limit).len() <= listing(m).len(),
        forall|i: int|
            #![trigger page(listing(m), cursor, limit)[i]]
            0 <= i < page(listing(m), cursor, limit).len() ==> {
                let e = page(listing(m), cursor, limit)[i];
                &&& m.contains_key(e.0)
                &&& m[e.0] == e.1
                &&& cursor matches Some(c) ==> addr_lt(c, e.0)
            },
        forall|k: Seq<char>|
            #![trigger m.contains_key(k)]
            m.contains_key(k) && (cursor matches Some(c) ==> addr_lt(c, k)) && page(
                listing(m),
                cursor,
                limit,
            ).len() > 0 && addr_lt(k, page(listing(m), cursor, limit).last().0) ==> has_address(
                page(listing(m), cursor, limit),
                k,
            ),
{
    let s = listing(m);
    let rest = after_cursor(s, cursor);
    let p = page(s, cursor, limit);
    // what is left after the cursor is in order and comes from the listing
    match cursor {
        Some(c) => {
            lemma_after_cursor(s, c);
        },
        None => {
            assert forall|j: int| 0 <= j < s.len() implies s.contains(#[trigger] s[j]) by {}
        },
    }
    assert(ascending(p));
    assert forall|i: int| #![trigger p[i]] 0 <= i < p.len() implies ({
        let e = p[i];
        &&& m.contains_key(e.0)
        &&& m[e.0] == e.1
        &&& cursor matches Some(c) ==> addr_lt(c, e.0)
    }) by {
        assert(s.contains(rest[i]));
    }
    assert forall|k: Seq<char>|
        #![trigger m.contains_key(k)]
        m.contains_key(k) && (cursor matches Some(c) ==> addr_lt(c, k)) && p.len() > 0 && addr_lt(
            k,
            p.last().0,
        ) implies has_address(p, k) by {
        // `k` stands somewhere after the cursor, and not behind the page
        let j = index_of(s, k);
        assert(rest.contains(s[j]));
        let r = choose|r: int| 0 <= r < rest.len() && rest[r] == s[j];
        if r >= p.len() {
            lemma_addr_lt_asymmetric(k, p.last().0);
            lemma_addr_lt_irreflexive(k);
        }
        assert(p[r].0 == k);
    }
}

/// The plain value of a stored entry.
pub open spec fn entry_view<V>(e: (String, V)) -> (Seq<char>, V) {
    (e.0@, e.1)
}

/// The plain values of a vector of entries, in their order.
pub open spec fn entries_view<V>(v: Seq<(String, V)>) -> Seq<(Seq<char>, V)> {
    Seq::new(v.len(), |i: int| entry_view(v[i]))
}

/// A finite map from addresses to values of type `V`.
pub struct AddressMap<V> {
    entries: Vec<(String, V)>,
}

impl<V> View for AddressMap<V> {
    type V = Map<Seq<char>, V>;

    closed spec fn view(&self) -> Map<Seq<char>, V> {
        contents(entries_view(self.entries@))
    }
}

impl<V> AddressMap<V> {
    #[verifier::type_invariant]
    spec fn in_order(&self) -> bool {
        ascending(entries_view(self.entries@))
    }
}

impl<V: Copy> AddressMap<V> {
    /// The map without entries.
    pub fn new() -> (r: Self)
        ensures
            r@ == Map::<Seq<char>, V>::empty(),
            listable(r@),
    {
        let r = AddressMap { entries: Vec::new() };
        proof {
            lemma_listing_of_contents(entries_view(r.entries@));
        }
        r
    }

    /// The index of the first entry that does not sort before `addr`, and
    /// whether that entry stands under `addr` itself.
    fn position(&self, addr: &str) -> (r: (usize, bool))
        ensures
            r.0 <= self.entries@.len(),
            forall|i: int|
                #![trigger entries_view(self.entries@)[i]]
                0 <= i < r.0 ==> addr_lt(entries_view(self.entries@)[i].0, addr@),
            forall|i: int|
                #![trigger entries_view(self.entries@)[i]]
                r.0 <= i < self.entries@.len() ==> !addr_lt(
                    entries_view(self.entries@)[i].0,
                    addr@,
                ),
            r.1 == (r.0 < self.entries@.len() && entries_view(self.entries@)[r.0 as int].0
                == addr@),
            r.1 == self@.contains_key(addr@),
    {
        proof {
            use_type_invariant(self);
        }
        let ghost s = entries_view(self.entries@);
        let mut lo: usize = 0;
        let mut hi: usize = self.entries.len();
        while lo < hi
            invariant
                lo <= hi <= s.len(),
                s == entries_view(self.entries@),
                ascending(s),
                forall|i: int| #![trigger s[i]] 0 <= i < lo ==> addr_lt(s[i].0, addr@),
                forall|i: int| #![trigger s[i]] hi <= i < s.len() ==> !addr_lt(s[i].0, addr@),
            decreases hi - lo,
        {
            let mid = lo + (hi - lo) / 2;
            if address_lt(self.entries[mid].0.as_str(), addr) {
                proof {
                    assert forall|i: int| #![trigger s[i]] 0 <= i < mid + 1 implies addr_lt(
                        s[i].0,
                        addr@,
                    ) by {
                        if i < mid {
                            lemma_addr_lt_transitive(s[i].0, s[mid as int].0, addr@);
                        }
                    }
                }
                lo = mid + 1;
            } else {
                proof {
                    assert forall|i: int| #![trigger s[i]] mid <= i < s.len() implies !addr_lt(
                        s[i].0,
                        addr@,
                    ) by {
                        if i > mid && addr_lt(s[i].0, addr@) {
                            lemma_addr_lt_transitive(s[mid as int].0, s[i].0, addr@);
                        }
                    }
                }
                hi = mid;
            }
        }
        let mut found = false;
        if lo < self.entries.len() {
            found = !address_lt(addr, self.entries[lo].0.as_str());
        }
        proof {
            if lo < s.len() {
                lemma_addr_lt_total(addr@, s[lo as int].0);
            }
            if !found && has_address(s, addr@) {
                // no address sorts before itself, so the entry cannot stand
                // before `lo`; and behind `lo` it would sort after one that
                // does not sort before it
                lemma_addr_lt_irreflexive(addr@);
                assert(s[index_of(s, addr@)].0 == addr@);
            }
        }
        (lo, found)
    }

    /// What is stored under `addr`, if anything.
    pub fn get(&self, addr: &str) -> (r: Option<V>)
        ensures
            r == (if self@.contains_key(addr@) {
                Some(self@[addr@])
            } else {
                None
            }),
    {
        proof {
            use_type_invariant(self);
            lemma_contents_listing(entries_view(self.entries@));
        }
        let (pos, found) = self.position(addr);
        if found {
            Some(self.entries[pos].1)
        } else {
            None
        }
    }

    /// Whether anything is stored under `addr`.
    pub fn contains(&self, addr: &str) -> (r: bool)
        ensures
            r == self@.contains_key(addr@),
    {
        let (_, found) = self.position(addr);
        found
    }

    /// Stores `value` under `addr`, in place of what was stored there.
    pub fn set(&mut self, addr: String, value: V)
        ensures
            final(self)@ == old(self)@.insert(addr@, value),
            listable(final(self)@),
    {
        proof {
            use_type_invariant(&*self);
        }
        let (pos, found) = self.position(addr.as_str());
        let ghost before = entries_view(self.entries@);
        let mut entries: Vec<(String, V)> = Vec::new();
        core::mem::swap(&mut self.entries, &mut entries);
        if found {
            proof {
                lemma_update_entry(before, pos as int, value);
            }
            entries.set(pos, (addr, value));
            assert(entries_view(entries@) =~= before.update(pos as int, (addr@, value)));
        } else {
            proof {
                lemma_insert_entry(before, pos as int, addr@, value);
            }
            entries.insert(pos, (addr, value));
            assert(entries_view(entries@) =~= before.insert(pos as int, (addr@, value)));
        }
        proof {
            lemma_listing_of_contents(entries_view(entries@));
        }
        self.entries = entries;
    }

    /// Removes what is stored under `addr`, if anything.
    pub fn remove(&mut self, addr: &str)
        ensures
            final(self)@ == old(self)@.remove(addr@),
            listable(final(self)@),
    {
        proof {
            use_type_invariant(&*self);
        }
        let (pos, found) = self.position(addr);
        let ghost before = entries_view(self.entries@);
        if found {
            let mut entries: Vec<(String, V)> = Vec::new();
            core::mem::swap(&mut self.entries, &mut entries);
            proof {
                lemma_remove_entry(before, pos as int);
            }
            let _ = entries.remove(pos);
            assert(entries_view(entries@) =~= before.remove(pos as int));
            proof {
                lemma_listing_of_contents(entries_view(entries@));
            }
            self.entries = entries;
        } else {
            proof {
                lemma_listing_of_contents(before);
            }
        }
    }

    /// The number of entries.
    pub fn len(&self) -> (r: usize)
        ensures
            r == listing(self@).len(),
    {
        proof {
            use_type_invariant(self);
            lemma_listing_of_contents(entries_view(self.entries@));
        }
        self.entries.len()
    }

    /// One page of the entries in ascending order of address: those after
    /// `start_after`, which is itself left out, and at most `limit` of them.
    pub fn list(&self, start_after: &Option<String>, limit: usize) -> (r: Vec<(String, V)>)
        ensures
            entries_view(r@) == page(listing(self@), opt_view(*start_after), limit as nat),
    {
        proof {
            use_type_invariant(self);
            lemma_listing_of_contents(entries_view(self.entries@));
        }
        let ghost s = entries_view(self.entries@);
        let total = self.entries.len();
        let mut start: usize = 0;
        match start_after {
            Some(c) => {
                let (pos, found) = self.position(c.as_str());
                start = if found {
                    pos + 1
                } else {
                    pos
                };
                proof {
                    let k = c@;
                    lemma_addr_lt_irreflexive(k);
                    assert forall|i: int| #![trigger s[i]] 0 <= i < start implies !addr_lt(
                        k,
                        s[i].0,
                    ) by {
                        if i < pos {
                            lemma_addr_lt_asymmetric(s[i].0, k);
                        }
                    }
                    assert forall|i: int| #![trigger s[i]] start <= i < s.len() implies addr_lt(
                        k,
                        s[i].0,
                    ) by {
                        lemma_addr_lt_total(k, s[i].0);
                    }
                    lemma_after_cursor_is_suffix(s, k, start as int);
                }
            },
            None => {},
        }
        let mut out: Vec<(String, V)> = Vec::new();
        let mut i: usize = start;
        while i < total && out.len() < limit
            invariant
                start <= i <= s.len(),
                total == s.len(),
                s == entries_view(self.entries@),
                out@.len() == i - start,
                out@.len() <= limit,
                entries_view(out@) =~= s.subrange(start as int, i as int),
            decreases s.len() - i,
        {
            let address = self.entries[i].0.clone();
            let value = self.entries[i].1;
            out.push((address, value));
            i = i + 1;
        }
        out
    }
}

} // verus!
