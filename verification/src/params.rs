//! Request parameters of a Last.fm call: a map from names to values that
//! keeps its entries ordered by name, as the API signature needs them.
use vstd::prelude::*;

use crate::text::{compare_str, lemma_lex_lt_asymmetric, lemma_lex_lt_irreflexive, lemma_lex_lt_total, lemma_lex_lt_transitive, lex_lt, Order};

verus! {

/// A parameter as text: name and value.
pub type Entry = (Seq<char>, Seq<char>);

/// The names of `s` strictly increase.
pub open spec fn keys_sorted(s: Seq<Entry>) -> bool {
    forall|i: int, j: int| 0 <= i < j < s.len() ==> lex_lt(#[trigger] s[i].0, #[trigger] s[j].0)
}

/// `s` with `(k, v)` put in its place by name: an entry named `k` is
/// replaced, otherwise the entry goes before the first name above `k`.
pub open spec fn sorted_insert(s: Seq<Entry>, k: Seq<char>, v: Seq<char>) -> Seq<Entry>
    decreases s.len(),
{
    if s.len() == 0 {
        seq![(k, v)]
    } else if s[0].0 == k {
        seq![(k, v)] + s.drop_first()
    } else if lex_lt(k, s[0].0) {
        seq![(k, v)] + s
    } else {
        seq![s[0]] + sorted_insert(s.drop_first(), k, v)
    }
}

/// The map from names to values that `s` lists.
pub open spec fn entries_map(s: Seq<Entry>) -> Map<Seq<char>, Seq<char>>
    decreases s.len(),
{
    if s.len() == 0 {
        Map::empty()
    } else {
        entries_map(s.drop_first()).insert(s[0].0, s[0].1)
    }
}

/// Every name in `sorted_insert(s, k, v)` is `k` or a name of `s`.
proof fn lemma_sorted_insert_keys(s: Seq<Entry>, k: Seq<char>, v: Seq<char>, i: int)
    requires
        0 <= i < sorted_insert(s, k, v).len(),
    ensures
        sorted_insert(s, k, v)[i].0 == k || exists|j: int| 0 <= j < s.len() && s[j].0 == sorted_insert(s, k, v)[i].0,
    decreases s.len(),
{
    let r = sorted_insert(s, k, v);
    if s.len() == 0 {
    } else if s[0].0 == k {
        if i > 0 {
            assert(r[i] == s[i]);
        }
    } else if lex_lt(k, s[0].0) {
        if i > 0 {
            assert(r[i] == s[i - 1]);
        }
    } else {
        if i > 0 {
            let rest = s.drop_first();
            lemma_sorted_insert_keys(rest, k, v, i - 1);
            assert(r[i] == sorted_insert(rest, k, v)[i - 1]);
            if sorted_insert(rest, k, v)[i - 1].0 != k {
                let j = choose|j: int| 0 <= j < rest.len() && rest[j].0 == sorted_insert(rest, k, v)[i - 1].0;
                assert(s[j + 1] == rest[j]);
            }
        }
    }
}

/// Inserting into a sorted listing keeps it sorted.
pub proof fn law_sorted_insert_sorted(s: Seq<Entry>, k: Seq<char>, v: Seq<char>)
    requires
        keys_sorted(s),
    ensures
        keys_sorted(sorted_insert(s, k, v)),
    decreases s.len(),
{
    let r = sorted_insert(s, k, v);
    if s.len() == 0 {
    } else if s[0].0 == k {
        assert forall|i: int, j: int| 0 <= i < j < r.len() implies lex_lt(#[trigger] r[i].0, #[trigger] r[j].0) by {
            assert(r[j] == s[j]);
            if i > 0 {
                assert(r[i] == s[i]);
            }
        }
    } else if lex_lt(k, s[0].0) {
        assert forall|i: int, j: int| 0 <= i < j < r.len() implies lex_lt(#[trigger] r[i].0, #[trigger] r[j].0) by {
            assert(r[j] == s[j - 1]);
            if i > 0 {
                assert(r[i] == s[i - 1]);
            } else if j - 1 > 0 {
                lemma_lex_lt_transitive(k, s[0].0, s[j - 1].0);
            }
        }
    } else {
        let rest = s.drop_first();
        assert(keys_sorted(rest)) by {
            assert forall|i: int, j: int| 0 <= i < j < rest.len() implies lex_lt(#[trigger] rest[i].0, #[trigger] rest[j].0) by {
                assert(rest[i] == s[i + 1]);
                assert(rest[j] == s[j + 1]);
            }
        }
        law_sorted_insert_sorted(rest, k, v);
        lemma_lex_lt_total(k, s[0].0);
        let ri = sorted_insert(rest, k, v);
        assert forall|i: int, j: int| 0 <= i < j < r.len() implies lex_lt(#[trigger] r[i].0, #[trigger] r[j].0) by {
            assert(r[j] == ri[j - 1]);
            if i > 0 {
                assert(r[i] == ri[i - 1]);
            } else {
                lemma_sorted_insert_keys(rest, k, v, j - 1);
                if ri[j - 1].0 != k {
                    let m = choose|m: int| 0 <= m < rest.len() && rest[m].0 == ri[j - 1].0;
                    assert(s[m + 1] == rest[m]);
                }
            }
        }
    }
}

/// Inserting into the listing inserts into the map it lists.
pub proof fn law_sorted_insert_map(s: Seq<Entry>, k: Seq<char>, v: Seq<char>)
    ensures
        entries_map(sorted_insert(s, k, v)) == entries_map(s).insert(k, v),
    decreases s.len(),
{
    let r = sorted_insert(s, k, v);
    if s.len() == 0 {
        assert(r.drop_first() =~= Seq::<Entry>::empty());
        assert(entries_map(r.drop_first()) == Map::<Seq<char>, Seq<char>>::empty());
        assert(entries_map(r) =~= entries_map(s).insert(k, v));
    } else if s[0].0 == k {
        assert(r.drop_first() =~= s.drop_first());
        assert(entries_map(r) =~= entries_map(s).insert(k, v));
    } else if lex_lt(k, s[0].0) {
        assert(r.drop_first() =~= s);
    } else {
        let rest = s.drop_first();
        law_sorted_insert_map(rest, k, v);
        assert(r.drop_first() =~= sorted_insert(rest, k, v));
        assert(entries_map(r) =~= entries_map(s).insert(k, v));
    }
}

/// In a listing without repeated names, the map holds exactly the listed
/// names, each with its listed value.
proof fn lemma_entries_map_members(s: Seq<Entry>)
    requires
        keys_sorted(s),
    ensures
        forall|i: int| 0 <= i < s.len() ==> #[trigger] entries_map(s).contains_key(s[i].0) && entries_map(s)[s[i].0] == s[i].1,
        forall|k: Seq<char>| #[trigger] entries_map(s).contains_key(k) ==> exists|i: int| 0 <= i < s.len() && s[i].0 == k,
    decreases s.len(),
{
    if s.len() > 0 {
        let rest = s.drop_first();
        assert(keys_sorted(rest)) by {
            assert forall|i: int, j: int| 0 <= i < j < rest.len() implies lex_lt(#[trigger] rest[i].0, #[trigger] rest[j].0) by {
                assert(rest[i] == s[i + 1]);
                assert(rest[j] == s[j + 1]);
            }
        }
        lemma_entries_map_members(rest);
        assert forall|i: int| 0 <= i < s.len() implies #[trigger] entries_map(s).contains_key(s[i].0) && entries_map(s)[s[i].0] == s[i].1 by {
            if i > 0 {
                assert(s[i] == rest[i - 1]);
                assert(lex_lt(s[0].0, s[i].0));
                lemma_lex_lt_irreflexive(s[0].0);
                assert(s[0].0 != s[i].0);
                assert(entries_map(rest).contains_key(rest[i - 1].0));
                assert(entries_map(s) == entries_map(rest).insert(s[0].0, s[0].1));
            }
        }
        assert forall|k: Seq<char>| #[trigger] entries_map(s).contains_key(k) implies exists|i: int| 0 <= i < s.len() && s[i].0 == k by {
            if k != s[0].0 {
                assert(entries_map(rest).contains_key(k));
                let j = choose|j: int| 0 <= j < rest.len() && rest[j].0 == k;
                assert(s[j + 1] == rest[j]);
            }
        }
    }
}

/// A map has one listing ordered by name: two sorted listings of the same
/// map are equal. So whatever order parameters are inserted in, the request
/// lists them (and signs them) the same way.
pub proof fn law_listing_unique(a: Seq<Entry>, b: Seq<Entry>)
    requires
        keys_sorted(a),
        keys_sorted(b),
        entries_map(a) == entries_map(b),
    ensures
        a == b,
    decreases a.len(),
{
    lemma_entries_map_members(a);
    lemma_entries_map_members(b);
    if a.len() == 0 {
        if b.len() > 0 {
            assert(entries_map(b).contains_key(b[0].0));
        }
        assert(a =~= b);
    } else {
        assert(entries_map(b).contains_key(a[0].0));
        if b.len() == 0 {
            assert(false);
        }
        let j = choose|j: int| 0 <= j < b.len() && b[j].0 == a[0].0;
        assert(entries_map(a).contains_key(b[0].0));
        let i = choose|i: int| 0 <= i < a.len() && a[i].0 == b[0].0;
        if j > 0 {
            assert(lex_lt(b[0].0, b[j].0));
            if i > 0 {
                assert(lex_lt(a[0].0, a[i].0));
                lemma_lex_lt_asymmetric(a[0].0, a[i].0);
            } else {
                lemma_lex_lt_irreflexive(a[0].0);
            }
        }
        assert(j == 0);
        assert(a[0] == b[0]);
        let ra = a.drop_first();
        let rb = b.drop_first();
        assert(keys_sorted(ra)) by {
            assert forall|x: int, y: int| 0 <= x < y < ra.len() implies lex_lt(#[trigger] ra[x].0, #[trigger] ra[y].0) by {
                assert(ra[x] == a[x + 1]);
                assert(ra[y] == a[y + 1]);
            }
        }
        assert(keys_sorted(rb)) by {
            assert forall|x: int, y: int| 0 <= x < y < rb.len() implies lex_lt(#[trigger] rb[x].0, #[trigger] rb[y].0) by {
                assert(rb[x] == b[x + 1]);
                assert(rb[y] == b[y + 1]);
            }
        }
        lemma_entries_map_members(ra);
        lemma_entries_map_members(rb);
        assert(!entries_map(ra).contains_key(a[0].0)) by {
            if entries_map(ra).contains_key(a[0].0) {
                let x = choose|x: int| 0 <= x < ra.len() && ra[x].0 == a[0].0;
                assert(a[x + 1] == ra[x]);
                assert(lex_lt(a[0].0, a[x + 1].0));
                lemma_lex_lt_irreflexive(a[0].0);
            }
        }
        assert(!entries_map(rb).contains_key(b[0].0)) by {
            if entries_map(rb).contains_key(b[0].0) {
                let x = choose|x: int| 0 <= x < rb.len() && rb[x].0 == b[0].0;
                assert(b[x + 1] == rb[x]);
                assert(lex_lt(b[0].0, b[x + 1].0));
                lemma_lex_lt_irreflexive(b[0].0);
            }
        }
        assert(entries_map(ra) =~= entries_map(a).remove(a[0].0));
        assert(entries_map(rb) =~= entries_map(b).remove(b[0].0));
        law_listing_unique(ra, rb);
        assert(a =~= seq![a[0]] + ra);
        assert(b =~= seq![b[0]] + rb);
    }
}

/// `sorted_insert` seen from the first position whose name is not below `k`.
proof fn lemma_sorted_insert_at(s: Seq<Entry>, k: Seq<char>, v: Seq<char>, i: int)
    requires
        0 <= i <= s.len(),
        forall|j: int| 0 <= j < i ==> lex_lt(#[trigger] s[j].0, k),
        i == s.len() || !lex_lt(s[i].0, k),
    ensures
        sorted_insert(s, k, v) == (if i < s.len() && s[i].0 == k {
            s.take(i) + seq![(k, v)] + s.skip(i + 1)
        } else {
            s.take(i) + seq![(k, v)] + s.skip(i)
        }),
    decreases i,
{
    if i == 0 {
        if s.len() > 0 {
            lemma_lex_lt_total(k, s[0].0);
            assert(s.skip(1) =~= s.drop_first());
            assert(s.skip(0) =~= s);
        }
        assert(s.take(0) =~= Seq::<Entry>::empty());
        assert(seq![(k, v)] + s.skip(0) =~= seq![(k, v)] + s);
    } else {
        lemma_lex_lt_irreflexive(k);
        lemma_lex_lt_asymmetric(s[0].0, k);
        assert(s[0].0 != k);
        let rest = s.drop_first();
        assert forall|j: int| 0 <= j < i - 1 implies lex_lt(#[trigger] rest[j].0, k) by {
            assert(rest[j] == s[j + 1]);
        }
        lemma_sorted_insert_at(rest, k, v, i - 1);
        if i < s.len() && s[i].0 == k {
            assert(s.take(i) + seq![(k, v)] + s.skip(i + 1) =~= seq![s[0]] + (rest.take(i - 1) + seq![(k, v)] + rest.skip(i)));
        } else {
            assert(s.take(i) + seq![(k, v)] + s.skip(i) =~= seq![s[0]] + (rest.take(i - 1) + seq![(k, v)] + rest.skip(i - 1)));
        }
    }
}

/// A parameter as text.
pub open spec fn entry_view(p: (String, String)) -> Entry {
    (p.0@, p.1@)
}

/// Request parameters, ordered by name without repeats, as a `BTreeMap` keeps them.
///
/// They are held in a sorted `Vec` rather than a `BTreeMap<String, String>`:
/// vstd specifies `BTreeMap` only for key types whose `Ord` it knows, which
/// `String` is not, so the order of the entries (which the signature depends
/// on) could not be reasoned about there.
pub struct Params {
    entries: Vec<(String, String)>,
}

impl View for Params {
    type V = Seq<Entry>;

    closed spec fn view(&self) -> Seq<Entry> {
        self.entries@.map_values(|p: (String, String)| entry_view(p))
    }
}

impl Params {
    #[verifier::type_invariant]
    closed spec fn inv(self) -> bool {
        keys_sorted(self@)
    }

    /// No parameters.
    pub fn new() -> (p: Params)
        ensures
            p@ == Seq::<Entry>::empty(),
    {
        let p = Params { entries: Vec::new() };
        assert(p@ =~= Seq::<Entry>::empty());
        p
    }

    /// Sets parameter `key` to `value`, replacing any value it had.
    pub fn insert(&mut self, key: String, value: String)
        ensures
            final(self)@ == sorted_insert(old(self)@, key@, value@),
    {
        proof {
            use_type_invariant(&*self);
        }
        let ghost s = self@;
        let mut entries: Vec<(String, String)> = Vec::new();
        std::mem::swap(&mut entries, &mut self.entries);
        let n = entries.len();
        let mut i: usize = 0;
        let mut found = false;
        while i < n
            invariant_except_break
                n == entries@.len(),
                s == entries@.map_values(|p: (String, String)| entry_view(p)),
                i <= n,
                forall|j: int| 0 <= j < i ==> lex_lt(#[trigger] s[j].0, key@),
                !found,
            ensures
                i <= n,
                n == entries@.len(),
                s == entries@.map_values(|p: (String, String)| entry_view(p)),
                forall|j: int| 0 <= j < i ==> lex_lt(#[trigger] s[j].0, key@),
                i == n || !lex_lt(s[i as int].0, key@),
                found == (i < n && s[i as int].0 == key@),
            decreases n - i,
        {
            let o = compare_str(entries[i].0.as_str(), key.as_str());
            assert(s[i as int] == entry_view(entries@[i as int]));
            match o {
                Order::Less => {
                    i = i + 1;
                },
                Order::Equal => {
                    found = true;
                    break;
                },
                Order::Greater => {
                    proof {
                        lemma_lex_lt_asymmetric(s[i as int].0, key@);
                        lemma_lex_lt_irreflexive(key@);
                    }
                    break;
                },
            }
        }
        proof {
            lemma_sorted_insert_at(s, key@, value@, i as int);
            law_sorted_insert_sorted(s, key@, value@);
        }
        let ghost kv = (key@, value@);
        if found {
            entries.set(i, (key, value));
            assert(entries@.map_values(|p: (String, String)| entry_view(p)) =~= s.take(i as int) + seq![kv] + s.skip(i + 1));
        } else {
            entries.insert(i, (key, value));
            assert(entries@.map_values(|p: (String, String)| entry_view(p)) =~= s.take(i as int) + seq![kv] + s.skip(i as int));
        }
        self.entries = entries;
    }

    /// The parameters in name order.
    pub fn entries(&self) -> (r: &Vec<(String, String)>)
        ensures
            r@.map_values(|p: (String, String)| entry_view(p)) == self@,
            keys_sorted(self@),
    {
        proof {
            use_type_invariant(self);
        }
        &self.entries
    }
}

} // verus!
