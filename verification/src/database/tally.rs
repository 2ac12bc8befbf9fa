//! Counts of text keys kept in key order, as an ordered map would keep them.
use vstd::prelude::*;

use crate::database::health::counts_view;
use crate::text::{chars_of, clone_string, vec_eq};

verus! {

/// Lexicographic order of texts by code point (the byte order of UTF-8).
pub open spec fn text_less(a: Seq<char>, b: Seq<char>) -> bool
    decreases a.len(),
{
    if a.len() == 0 {
        b.len() > 0
    } else if b.len() == 0 {
        false
    } else if a[0] < b[0] {
        true
    } else if a[0] == b[0] {
        text_less(a.drop_first(), b.drop_first())
    } else {
        false
    }
}

/// Two different texts are ordered one way or the other.
pub proof fn lemma_text_less_total(a: Seq<char>, b: Seq<char>)
    requires
        a != b,
    ensures
        text_less(a, b) || text_less(b, a),
    decreases a.len(),
{
    if a.len() == 0 || b.len() == 0 {
        if a.len() == 0 && b.len() == 0 {
            assert(a =~= b);
        }
    } else if a[0] == b[0] {
        if a.drop_first() == b.drop_first() {
            assert(a =~= seq![a[0]] + a.drop_first());
            assert(b =~= seq![b[0]] + b.drop_first());
        }
        lemma_text_less_total(a.drop_first(), b.drop_first());
    } else {
    }
}

/// A text is not less than itself.
pub proof fn lemma_text_less_irreflexive(a: Seq<char>)
    ensures
        !text_less(a, a),
    decreases a.len(),
{
    if a.len() > 0 {
        lemma_text_less_irreflexive(a.drop_first());
    }
}

/// How often `k` occurs among the keys.
pub open spec fn count_of(keys: Seq<Seq<char>>, k: Seq<char>) -> nat
    decreases keys.len(),
{
    if keys.len() == 0 {
        0
    } else {
        count_of(keys.drop_last(), k) + if keys.last() == k {
            1nat
        } else {
            0nat
        }
    }
}

/// The entries hold each key once, in increasing order, with how often it
/// occurs among `keys`; every key occurs.
pub open spec fn tallies(entries: Seq<(Seq<char>, nat)>, keys: Seq<Seq<char>>) -> bool {
    &&& forall|i: int| 0 <= i < entries.len() - 1 ==> text_less(#[trigger] entries[i].0, entries[i + 1].0)
    &&& forall|i: int, j: int| 0 <= i < j < entries.len() ==> #[trigger] entries[i].0 != #[trigger] entries[j].0
    &&& forall|i: int| 0 <= i < entries.len() ==> #[trigger] entries[i].1 == count_of(keys, entries[i].0)
    &&& forall|k: Seq<char>| #[trigger] count_of(keys, k) > 0 ==> exists|i: int| 0 <= i < entries.len() && entries[i].0 == k
}

pub open spec fn entries_view(entries: Seq<(String, usize)>) -> Seq<(Seq<char>, nat)> {
    entries.map_values(|e: (String, usize)| (e.0@, e.1 as nat))
}

fn text_less_exec(a: &Vec<char>, b: &Vec<char>) -> (r: bool)
    ensures
        r == text_less(a@, b@),
{
    let mut i: usize = 0;
    assert(a@.skip(0) =~= a@);
    assert(b@.skip(0) =~= b@);
    assert(a@.take(0) =~= b@.take(0));
    while i < a.len() && i < b.len()
        invariant
            i <= a@.len(),
            i <= b@.len(),
            a@.take(i as int) == b@.take(i as int),
            text_less(a@, b@) == text_less(a@.skip(i as int), b@.skip(i as int)),
        decreases a@.len() - i,
    {
        proof {
            let sa = a@.skip(i as int);
            let sb = b@.skip(i as int);
            assert(sa.drop_first() =~= a@.skip(i + 1));
            assert(sb.drop_first() =~= b@.skip(i + 1));
            assert(sa[0] == a@[i as int]);
            assert(sb[0] == b@[i as int]);
        }
        if a[i] < b[i] {
            return true;
        }
        if a[i] != b[i] {
            return false;
        }
        assert(a@.take(i + 1) =~= a@.take(i as int).push(a@[i as int]));
        assert(b@.take(i + 1) =~= b@.take(i as int).push(b@[i as int]));
        i = i + 1;
    }
    assert(a@.skip(i as int).len() == a@.len() - i);
    assert(b@.skip(i as int).len() == b@.len() - i);
    i == a.len() && i < b.len()
}

proof fn lemma_count_push(keys: Seq<Seq<char>>, key: Seq<char>, k: Seq<char>)
    ensures
        count_of(keys.push(key), k) == count_of(keys, k) + if key == k {
            1nat
        } else {
            0nat
        },
{
    assert(keys.push(key).drop_last() =~= keys);
}

/// Counts one more occurrence of `key`.
fn key_before(entries: &Vec<(String, usize)>, p: usize, k: &Vec<char>) -> (r: bool)
    requires
        p < entries@.len(),
    ensures
        r == text_less(k@, entries@[p as int].0@),
{
    let other = chars_of(entries[p].0.as_str());
    text_less_exec(k, &other)
}

pub fn tally_add(entries: &mut Vec<(String, usize)>, key: String, Ghost(keys): Ghost<Seq<Seq<char>>>)
    requires
        tallies(entries_view(old(entries)@), keys),
        count_of(keys, key@) < usize::MAX,
    ensures
        tallies(entries_view(final(entries)@), keys.push(key@)),
{
    let k = chars_of(key.as_str());
    let ghost before = entries_view(entries@);
    let mut found: Option<usize> = None;
    let mut i: usize = 0;
    while i < entries.len()
        invariant
            i <= entries@.len(),
            k@ == key@,
            entries_view(entries@) == before,
            found is None ==> forall|j: int| 0 <= j < i ==> before[j].0 != key@,
            found is Some ==> found->0 < entries@.len() && before[found->0 as int].0 == key@,
        decreases entries@.len() - i,
    {
        if found.is_none() {
            let other = chars_of(entries[i].0.as_str());
            if crate::text::vec_eq(&other, &k) {
                found = Some(i);
            }
        }
        i = i + 1;
    }
    proof {
        lemma_count_push(keys, key@, key@);
        assert forall|x: Seq<char>| #[trigger] count_of(keys.push(key@), x) == count_of(keys, x) + if key@ == x { 1nat } else { 0nat } by {
            lemma_count_push(keys, key@, x);
        }
    }
    match found {
        Some(j) => {
            let count = entries[j].1;
            assert(before[j as int].1 == count_of(keys, before[j as int].0));
            assert(count == count_of(keys, key@));
            let name = clone_string(&entries[j].0);
            entries.set(j, (name, count + 1));
            let ghost after = entries_view(entries@);
            assert(after =~= before.update(j as int, (key@, (count + 1) as nat)));
            assert forall|a: int| 0 <= a < after.len() implies #[trigger] after[a].1 == count_of(
                keys.push(key@),
                after[a].0,
            ) by {
                if a != j {
                    assert(before[a].0 != before[j as int].0 || a == j);
                    assert(before[a].1 == count_of(keys, before[a].0));
                }
            }
            assert forall|x: Seq<char>| #[trigger] count_of(keys.push(key@), x) > 0 implies exists|a: int|
                0 <= a < after.len() && after[a].0 == x by {
                if x == key@ {
                    assert(after[j as int].0 == x);
                } else {
                    let b = choose|b: int| 0 <= b < before.len() && before[b].0 == x;
                    assert(after[b].0 == x);
                }
            }
            assert forall|a: int, b: int| 0 <= a < b < after.len() implies #[trigger] after[a].0
                != #[trigger] after[b].0 by {
                assert(before[a].0 != before[b].0);
            }
            assert forall|a: int| 0 <= a < after.len() - 1 implies text_less(
                #[trigger] after[a].0,
                after[a + 1].0,
            ) by {
                assert(text_less(before[a].0, before[a + 1].0));
            }
        },
        None => {
            let mut p: usize = 0;
            while p < entries.len() && !key_before(entries, p, &k)
                invariant
                    p <= entries@.len(),
                    k@ == key@,
                    entries_view(entries@) == before,
                    forall|j: int| 0 <= j < before.len() ==> before[j].0 != key@,
                    forall|j: int| 0 <= j < p ==> text_less(#[trigger] before[j].0, key@),
                decreases entries@.len() - p,
            {
                proof {
                    assert(before[p as int].0 != key@);
                    lemma_text_less_total(before[p as int].0, key@);
                }
                p = p + 1;
            }
            assert(count_of(keys, key@) == 0) by {
                if count_of(keys, key@) > 0 {
                    let j = choose|j: int| 0 <= j < before.len() && before[j].0 == key@;
                    assert(before[j].0 != key@);
                }
            }
            proof {
                if p < entries@.len() {
                    assert(text_less(key@, before[p as int].0) || p == entries@.len());
                }
            }
            entries.insert(p, (key, 1));
            let ghost after = entries_view(entries@);
            assert(after =~= before.insert(p as int, (key@, 1nat)));
            assert forall|a: int, b: int| 0 <= a < b < after.len() implies #[trigger] after[a].0 != #[trigger] after[b].0 by {
                if a == p {
                    assert(after[b].0 == before[b - 1].0);
                } else if b == p {
                    assert(after[a].0 == before[a].0);
                } else {
                }
            }
            assert forall|a: int| 0 <= a < after.len() - 1 implies text_less(#[trigger] after[a].0, after[a + 1].0) by {
                if a + 1 < p {
                } else if a + 1 == p {
                } else if a == p {
                } else {
                }
            }
            assert forall|x: Seq<char>| #[trigger] count_of(keys.push(key@), x) > 0 implies exists|a: int| 0 <= a < after.len() && after[a].0 == x by {
                if x == key@ {
                    assert(after[p as int].0 == x);
                } else {
                    let j = choose|j: int| 0 <= j < before.len() && before[j].0 == x;
                    if j < p {
                        assert(after[j].0 == x);
                    } else {
                        assert(after[j + 1].0 == x);
                    }
                }
            }
        },
    }
}


/// Sets the count of `k` in entries kept in key order, as an ordered map's
/// insertion does: an entry with the key takes the new count, otherwise a
/// new entry goes before the first greater key.
pub open spec fn insert_keyed(s: Seq<(Seq<char>, u64)>, k: Seq<char>, c: u64) -> Seq<(Seq<char>, u64)>
    decreases s.len(),
{
    if s.len() == 0 {
        seq![(k, c)]
    } else if s[0].0 == k {
        seq![(k, c)] + s.drop_first()
    } else if text_less(k, s[0].0) {
        seq![(k, c)] + s
    } else {
        seq![s[0]] + insert_keyed(s.drop_first(), k, c)
    }
}

/// The counts of rows of keys and counts, inserted one after the other into
/// an ordered map: each key once, in key order, with the last count given.
pub open spec fn keyed_counts(rows: Seq<(Seq<char>, u64)>) -> Seq<(Seq<char>, u64)>
    decreases rows.len(),
{
    if rows.len() == 0 {
        Seq::empty()
    } else {
        insert_keyed(keyed_counts(rows.drop_last()), rows.last().0, rows.last().1)
    }
}

/// Each key is less than the next.
pub open spec fn in_key_order(s: Seq<(Seq<char>, u64)>) -> bool {
    forall|i: int| 0 <= i < s.len() - 1 ==> text_less(#[trigger] s[i].0, s[i + 1].0)
}

proof fn lemma_insert_keyed_at(s: Seq<(Seq<char>, u64)>, k: Seq<char>, c: u64, p: int)
    requires
        0 <= p <= s.len(),
        forall|j: int| 0 <= j < p ==> #[trigger] s[j].0 != k && !text_less(k, s[j].0),
        p < s.len() ==> (s[p].0 == k || text_less(k, s[p].0)),
    ensures
        insert_keyed(s, k, c) == if p < s.len() && s[p].0 == k {
            s.take(p) + seq![(k, c)] + s.skip(p + 1)
        } else {
            s.take(p) + seq![(k, c)] + s.skip(p)
        },
    decreases p,
{
    if p == 0 {
        assert(s.take(0) =~= Seq::<(Seq<char>, u64)>::empty());
        assert(s.skip(0) =~= s);
        if s.len() > 0 {
            assert(s.skip(1) =~= s.drop_first());
        }
    } else {
        let t = s.drop_first();
        assert forall|j: int| 0 <= j < p - 1 implies #[trigger] t[j].0 != k && !text_less(k, t[j].0) by {
            assert(t[j] == s[j + 1]);
        }
        lemma_insert_keyed_at(t, k, c, p - 1);
        assert(s[0].0 != k && !text_less(k, s[0].0));
        if p < s.len() && s[p].0 == k {
            assert(seq![s[0]] + (t.take(p - 1) + seq![(k, c)] + t.skip(p)) =~= s.take(p) + seq![(k, c)]
                + s.skip(p + 1));
        } else {
            assert(seq![s[0]] + (t.take(p - 1) + seq![(k, c)] + t.skip(p - 1)) =~= s.take(p) + seq![(k, c)]
                + s.skip(p));
        }
    }
}

proof fn lemma_insert_keeps_order(s: Seq<(Seq<char>, u64)>, k: Seq<char>, c: u64)
    requires
        in_key_order(s),
    ensures
        in_key_order(insert_keyed(s, k, c)),
        insert_keyed(s, k, c).len() > 0,
        insert_keyed(s, k, c)[0].0 == k || (s.len() > 0 && insert_keyed(s, k, c)[0].0 == s[0].0),
    decreases s.len(),
{
    let r = insert_keyed(s, k, c);
    if s.len() == 0 {
    } else if s[0].0 == k {
        assert forall|i: int| 0 <= i < r.len() - 1 implies text_less(#[trigger] r[i].0, r[i + 1].0) by {
            assert(text_less(s[i].0, s[i + 1].0));
        }
    } else if text_less(k, s[0].0) {
        assert forall|i: int| 0 <= i < r.len() - 1 implies text_less(#[trigger] r[i].0, r[i + 1].0) by {
            if i > 0 {
                assert(text_less(s[i - 1].0, s[i].0));
            }
        }
    } else {
        let t = s.drop_first();
        assert forall|i: int| 0 <= i < t.len() - 1 implies text_less(#[trigger] t[i].0, t[i + 1].0) by {
            assert(text_less(s[i + 1].0, s[i + 2].0));
        }
        lemma_insert_keeps_order(t, k, c);
        lemma_text_less_total(s[0].0, k);
        let u = insert_keyed(t, k, c);
        assert forall|i: int| 0 <= i < r.len() - 1 implies text_less(#[trigger] r[i].0, r[i + 1].0) by {
            if i == 0 {
                assert(r[1] == u[0]);
                if u[0].0 != k {
                    assert(text_less(s[0].0, s[1].0));
                }
            } else {
                assert(r[i] == u[i - 1]);
                assert(r[i + 1] == u[i]);
            }
        }
    }
}

/// The counts of a series of rows are kept in key order.
pub proof fn law_counts_in_key_order(rows: Seq<(Seq<char>, u64)>)
    ensures
        in_key_order(keyed_counts(rows)),
    decreases rows.len(),
{
    if rows.len() > 0 {
        law_counts_in_key_order(rows.drop_last());
        lemma_insert_keeps_order(keyed_counts(rows.drop_last()), rows.last().0, rows.last().1);
    }
}

/// Sets the count of `key`, keeping the entries in key order (see
/// `insert_keyed`).
pub fn insert_count(entries: &mut Vec<(String, u64)>, key: String, count: u64)
    ensures
        counts_view(final(entries)@) == insert_keyed(counts_view(old(entries)@), key@, count),
{
    let ghost s = counts_view(entries@);
    let k = chars_of(key.as_str());
    let mut p: usize = 0;
    let mut equal = false;
    while p < entries.len()
        invariant_except_break
            !equal,
        invariant
            p <= entries@.len(),
            k@ == key@,
            counts_view(entries@) == s,
            forall|j: int| 0 <= j < p ==> #[trigger] s[j].0 != key@ && !text_less(key@, s[j].0),
        ensures
            p <= entries@.len(),
            counts_view(entries@) == s,
            forall|j: int| 0 <= j < p ==> #[trigger] s[j].0 != key@ && !text_less(key@, s[j].0),
            p < entries@.len() ==> (s[p as int].0 == key@ || text_less(key@, s[p as int].0)),
            equal == (p < entries@.len() && s[p as int].0 == key@),
        decreases entries@.len() - p,
    {
        let other = chars_of(entries[p].0.as_str());
        assert(s[p as int].0 == other@);
        if vec_eq(&other, &k) {
            equal = true;
            break;
        }
        if text_less_exec(&k, &other) {
            break;
        }
        p = p + 1;
    }
    proof {
        lemma_insert_keyed_at(s, key@, count, p as int);
    }
    if equal {
        entries.set(p, (key, count));
        assert(counts_view(entries@) =~= s.take(p as int) + seq![(key@, count)] + s.skip(p + 1));
    } else {
        entries.insert(p, (key, count));
        assert(counts_view(entries@) =~= s.take(p as int) + seq![(key@, count)] + s.skip(p as int));
    }
}

} // verus!
