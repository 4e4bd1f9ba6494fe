//! Stable ordering of records by an integer key.

use vstd::prelude::*;

verus! {

/// Records that are ordered by an integer key.
pub trait SortKey: Sized {
    spec fn sort_key(&self) -> int;

    fn key(&self) -> (r: i64)
        ensures
            r as int == self.sort_key(),
    ;
}

/// The first position at or after `k` whose key is not above `key`, or the
/// length.
pub open spec fn insert_pos_from<T: SortKey>(sorted: Seq<T>, key: int, k: int) -> int
    decreases sorted.len() - k,
{
    if k < 0 || k >= sorted.len() {
        sorted.len() as int
    } else if sorted[k].sort_key() <= key {
        k
    } else {
        insert_pos_from(sorted, key, k + 1)
    }
}

/// `s` ordered by key, largest first, records with equal keys keeping their
/// order (what a stable sort by descending key gives).
pub open spec fn stable_desc<T: SortKey>(s: Seq<T>) -> Seq<T>
    decreases s.len(),
{
    if s.len() == 0 {
        s
    } else {
        let rest = stable_desc(s.drop_first());
        rest.insert(insert_pos_from(rest, s[0].sort_key(), 0), s[0])
    }
}

pub open spec fn is_desc<T: SortKey>(s: Seq<T>) -> bool {
    forall|i: int, j: int| 0 <= i < j < s.len() ==> s[j].sort_key() <= #[trigger] s[i].sort_key()
        && #[trigger] s[j].sort_key() <= s[i].sort_key()
}

proof fn lemma_insert_pos<T: SortKey>(sorted: Seq<T>, key: int, k: int)
    requires
        0 <= k <= sorted.len(),
    ensures
        k <= insert_pos_from(sorted, key, k) <= sorted.len(),
        forall|i: int| k <= i < insert_pos_from(sorted, key, k) ==> sorted[i].sort_key() > key,
        insert_pos_from(sorted, key, k) < sorted.len() ==> sorted[insert_pos_from(
            sorted,
            key,
            k,
        )].sort_key() <= key,
    decreases sorted.len() - k,
{
    if k < sorted.len() && sorted[k].sort_key() > key {
        lemma_insert_pos(sorted, key, k + 1);
    }
}

/// The stable descending order is sorted and holds the same records.
pub proof fn lemma_stable_desc<T: SortKey>(s: Seq<T>)
    ensures
        is_desc(stable_desc(s)),
        stable_desc(s).to_multiset() == s.to_multiset(),
        stable_desc(s).len() == s.len(),
    decreases s.len(),
{
    broadcast use vstd::seq_lib::to_multiset_insert;

    if s.len() == 0 {
    } else {
        let rest = stable_desc(s.drop_first());
        lemma_stable_desc(s.drop_first());
        let p = insert_pos_from(rest, s[0].sort_key(), 0);
        lemma_insert_pos(rest, s[0].sort_key(), 0);
        let r = rest.insert(p, s[0]);
        assert forall|i: int, j: int| 0 <= i < j < r.len() implies r[j].sort_key() <= r[i].sort_key() by {
            if j < p {
            } else if j == p {
                if i < p {
                }
            } else if i < p {
                if p < rest.len() {
                    assert(rest[j - 1].sort_key() <= rest[p].sort_key());
                }
            } else if i == p {
                assert(rest[j - 1].sort_key() <= rest[p].sort_key());
            } else {
                assert(rest[j - 1].sort_key() <= rest[i - 1].sort_key());
            }
        }
        assert(s =~= seq![s[0]] + s.drop_first());
        assert(s.drop_first().to_multiset().insert(s[0]) =~= s.to_multiset()) by {
            broadcast use vstd::seq_lib::to_multiset_build;

            vstd::seq_lib::lemma_seq_union_to_multiset_commutative(s.drop_first(), seq![s[0]]);
            assert(s.drop_first() + seq![s[0]] =~= s.drop_first().push(s[0]));
            assert(s.drop_first().push(s[0]).to_multiset() == s.drop_first().to_multiset().insert(
                s[0],
            ));
            assert(seq![s[0]] + s.drop_first() == s);
        }
    }
}

/// The position in `sorted` where a record with `key` is inserted.
fn insert_pos<T: SortKey>(sorted: &Vec<T>, key: i64) -> (r: usize)
    ensures
        r as int == insert_pos_from(sorted@, key as int, 0),
{
    let mut i: usize = 0;
    while i < sorted.len()
        invariant
            i <= sorted.len(),
            insert_pos_from(sorted@, key as int, 0) == insert_pos_from(sorted@, key as int, i as int),
        decreases sorted.len() - i,
    {
        if sorted[i].key() <= key {
            return i;
        }
        i += 1;
    }
    i
}

/// Orders records by key, largest first; equal keys keep their order.
pub fn sort_desc_stable<T: SortKey>(v: Vec<T>) -> (r: Vec<T>)
    ensures
        r@ == stable_desc(v@),
{
    let ghost orig = v@;
    let mut v = v;
    let mut out: Vec<T> = Vec::new();
    assert(orig.skip(orig.len() as int) =~= Seq::<T>::empty());
    assert(orig.take(orig.len() as int) =~= orig);
    while v.len() > 0
        invariant
            v.len() <= orig.len(),
            v@ == orig.take(v.len() as int),
            out@ == stable_desc(orig.skip(v.len() as int)),
        decreases v.len(),
    {
        let k = v.len() - 1;
        let x = v.pop().unwrap();
        assert(v@ =~= orig.take(k as int));
        let ghost tail = orig.skip(k as int);
        assert(tail.drop_first() =~= orig.skip(k + 1));
        assert(tail[0] == x);
        let key = x.key();
        let p = insert_pos(&out, key);
        proof {
            lemma_insert_pos(out@, key as int, 0);
        }
        out.insert(p, x);
    }
    assert(orig.skip(0) =~= orig);
    out
}

/// The first position at or after `k` whose key is above `kv`, or the length.
pub open spec fn insert_pos_asc<T>(sorted: Seq<T>, key: spec_fn(T) -> int, kv: int, k: int) -> int
    decreases sorted.len() - k,
{
    if k < 0 || k >= sorted.len() {
        sorted.len() as int
    } else if key(sorted[k]) > kv {
        k
    } else {
        insert_pos_asc(sorted, key, kv, k + 1)
    }
}

/// `s` ordered by `key`, smallest first, records with equal keys keeping
/// their order (what a stable sort by ascending key gives).
pub open spec fn stable_asc<T>(s: Seq<T>, key: spec_fn(T) -> int) -> Seq<T>
    decreases s.len(),
{
    if s.len() == 0 {
        s
    } else {
        let rest = stable_asc(s.drop_last(), key);
        rest.insert(insert_pos_asc(rest, key, key(s.last()), 0), s.last())
    }
}

pub open spec fn is_asc<T>(s: Seq<T>, key: spec_fn(T) -> int) -> bool {
    forall|i: int, j: int| 0 <= i < j < s.len() ==> key(#[trigger] s[i]) <= key(#[trigger] s[j])
}

proof fn lemma_insert_pos_asc<T>(sorted: Seq<T>, key: spec_fn(T) -> int, kv: int, k: int)
    requires
        0 <= k <= sorted.len(),
    ensures
        k <= insert_pos_asc(sorted, key, kv, k) <= sorted.len(),
        forall|i: int| k <= i < insert_pos_asc(sorted, key, kv, k) ==> key(sorted[i]) <= kv,
        insert_pos_asc(sorted, key, kv, k) < sorted.len() ==> key(
            sorted[insert_pos_asc(sorted, key, kv, k)],
        ) > kv,
    decreases sorted.len() - k,
{
    if k < sorted.len() && key(sorted[k]) <= kv {
        lemma_insert_pos_asc(sorted, key, kv, k + 1);
    }
}

/// The stable ascending order is sorted and holds the same records.
pub proof fn lemma_stable_asc<T>(s: Seq<T>, key: spec_fn(T) -> int)
    ensures
        is_asc(stable_asc(s, key), key),
        stable_asc(s, key).to_multiset() == s.to_multiset(),
        stable_asc(s, key).len() == s.len(),
    decreases s.len(),
{
    broadcast use vstd::seq_lib::to_multiset_insert;

    if s.len() > 0 {
        let rest = stable_asc(s.drop_last(), key);
        lemma_stable_asc(s.drop_last(), key);
        let kv = key(s.last());
        let p = insert_pos_asc(rest, key, kv, 0);
        lemma_insert_pos_asc(rest, key, kv, 0);
        let r = rest.insert(p, s.last());
        assert forall|i: int, j: int| 0 <= i < j < r.len() implies key(r[i]) <= key(r[j]) by {
            if j < p {
            } else if j == p {
                if i < p {
                }
            } else if i < p {
                if p < rest.len() {
                    assert(key(rest[i]) <= key(rest[j - 1]));
                }
            } else if i == p {
                assert(key(rest[p]) <= key(rest[j - 1]));
            } else {
                assert(key(rest[i - 1]) <= key(rest[j - 1]));
            }
        }
        assert(s.drop_last().push(s.last()) =~= s);
        assert(s.to_multiset() == s.drop_last().to_multiset().insert(s.last())) by {
            broadcast use vstd::seq_lib::to_multiset_build;

        }
    }
}

/// Orders records by the keys given beside them, smallest first; equal keys
/// keep their order.
pub fn sort_asc_by_keys<T>(v: Vec<T>, keys: Vec<i128>, Ghost(key): Ghost<spec_fn(T) -> int>) -> (r:
    Vec<T>)
    requires
        keys.len() == v.len(),
        forall|i: int| 0 <= i < v.len() ==> keys@[i] as int == key(#[trigger] v@[i]),
    ensures
        r@ == stable_asc(v@, key),
{
    let ghost orig = v@;
    let mut v = v;
    let mut keys = keys;
    let mut out: Vec<T> = Vec::new();
    let mut out_keys: Vec<i128> = Vec::new();
    let mut n: usize = 0;
    let total = v.len();
    while v.len() > 0
        invariant
            total == orig.len(),
            n + v.len() == total,
            keys.len() == v.len(),
            v@ == orig.skip(n as int),
            forall|i: int| 0 <= i < v.len() ==> keys@[i] as int == key(#[trigger] v@[i]),
            out@ == stable_asc(orig.take(n as int), key),
            out_keys.len() == out.len(),
            forall|i: int| 0 <= i < out.len() ==> out_keys@[i] as int == key(#[trigger] out@[i]),
        decreases v.len(),
    {
        let x = v.remove(0);
        let kx = keys.remove(0);
        assert(orig.take(n + 1).drop_last() =~= orig.take(n as int));
        assert(orig.take(n + 1).last() == x);
        assert(v@ =~= orig.skip(n + 1));
        let mut p: usize = 0;
        while p < out.len() && out_keys[p] <= kx
            invariant
                p <= out.len(),
                out_keys.len() == out.len(),
                forall|i: int| 0 <= i < out.len() ==> out_keys@[i] as int == key(#[trigger] out@[i]),
                insert_pos_asc(out@, key, kx as int, 0) == insert_pos_asc(out@, key, kx as int, p as int),
            decreases out.len() - p,
        {
            p += 1;
        }
        proof {
            lemma_insert_pos_asc(out@, key, kx as int, 0);
        }
        let ghost old_out = out@;
        let ghost old_keys = out_keys@;
        out.insert(p, x);
        out_keys.insert(p, kx);
        assert forall|i: int| 0 <= i < out.len() implies out_keys@[i] as int == key(#[trigger] out@[i]) by {
            if i < p {
                assert(out@[i] == old_out[i] && out_keys@[i] == old_keys[i]);
            } else if i == p {
            } else {
                assert(out@[i] == old_out[i - 1] && out_keys@[i] == old_keys[i - 1]);
            }
        }
        n += 1;
    }
    assert(orig.take(total as int) =~= orig);
    out
}

/// Every record of the stable ascending order is a record of the input.
pub proof fn lemma_stable_asc_members<T>(s: Seq<T>, key: spec_fn(T) -> int)
    ensures
        stable_asc(s, key).len() == s.len(),
        forall|k: int|
            0 <= k < s.len() ==> exists|j: int| 0 <= j < s.len() && #[trigger] stable_asc(s, key)[k] == s[j],
    decreases s.len(),
{
    if s.len() > 0 {
        let rest = stable_asc(s.drop_last(), key);
        lemma_stable_asc_members(s.drop_last(), key);
        let p = insert_pos_asc(rest, key, key(s.last()), 0);
        lemma_insert_pos_asc(rest, key, key(s.last()), 0);
        let r = rest.insert(p, s.last());
        assert forall|k: int| 0 <= k < s.len() implies exists|j: int|
            0 <= j < s.len() && #[trigger] r[k] == s[j] by {
            if k < p {
                let j = choose|j: int| 0 <= j < s.len() - 1 && rest[k] == s.drop_last()[j];
                assert(r[k] == s[j]);
            } else if k == p {
                assert(r[k] == s[s.len() - 1]);
            } else {
                let j = choose|j: int| 0 <= j < s.len() - 1 && rest[k - 1] == s.drop_last()[j];
                assert(r[k] == s[j]);
            }
        }
    }
}

/// Records told apart by `f`: no two of them agree on it.
pub open spec fn distinct_by<T>(s: Seq<T>, f: spec_fn(T) -> Seq<char>) -> bool {
    forall|i: int, j: int| 0 <= i < j < s.len() ==> f(#[trigger] s[i]) != f(#[trigger] s[j])
}

/// Reordering keeps records told apart.
pub proof fn lemma_stable_asc_distinct<T>(s: Seq<T>, key: spec_fn(T) -> int, f: spec_fn(T) -> Seq<char>)
    requires
        distinct_by(s, f),
    ensures
        distinct_by(stable_asc(s, key), f),
    decreases s.len(),
{
    if s.len() > 0 {
        let d = s.drop_last();
        assert(distinct_by(d, f)) by {
            assert forall|i: int, j: int| 0 <= i < j < d.len() implies f(#[trigger] d[i]) != f(
                #[trigger] d[j],
            ) by {
                assert(d[i] == s[i] && d[j] == s[j]);
            }
        }
        lemma_stable_asc_distinct(d, key, f);
        lemma_stable_asc_members(d, key);
        let rest = stable_asc(d, key);
        let p = insert_pos_asc(rest, key, key(s.last()), 0);
        lemma_insert_pos_asc(rest, key, key(s.last()), 0);
        let r = rest.insert(p, s.last());
        assert forall|k: int| 0 <= k < rest.len() implies f(#[trigger] rest[k]) != f(s.last()) by {
            let j = choose|j: int| 0 <= j < d.len() && rest[k] == d[j];
            assert(d[j] == s[j]);
            assert(f(s[j]) != f(s[s.len() - 1]));
        }
        assert forall|i: int, j: int| 0 <= i < j < r.len() implies f(#[trigger] r[i]) != f(
            #[trigger] r[j],
        ) by {
            if j < p {
                assert(r[i] == rest[i] && r[j] == rest[j]);
            } else if j == p {
                assert(r[i] == rest[i]);
            } else if i < p {
                assert(r[i] == rest[i] && r[j] == rest[j - 1]);
            } else if i == p {
                assert(r[j] == rest[j - 1]);
            } else {
                assert(r[i] == rest[i - 1] && r[j] == rest[j - 1]);
            }
        }
    }
}

} // verus!
