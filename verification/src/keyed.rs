//! Stable sorting of items by precomputed integer-sequence keys, and removal of items
//! whose key repeats the one before.

use vstd::prelude::*;
use vstd::multiset::Multiset;
use crate::duplicates::order::{lemma_lex_antisymmetric, lemma_lex_total, lemma_lex_transitive, lex_le};

verus! {

/// The keys are in lexicographic order.
pub open spec fn keys_sorted(keys: Seq<Seq<u64>>) -> bool {
    forall|i: int, j: int| 0 <= i < j < keys.len() ==> lex_le(#[trigger] keys[i], #[trigger] keys[j])
}

pub open spec fn key_views(keys: Seq<Vec<u64>>) -> Seq<Seq<u64>> {
    keys.map_values(|k: Vec<u64>| k@)
}

/// Each item beside its key.
pub open spec fn pair_seq<T>(keys: Seq<Seq<u64>>, items: Seq<T>) -> Seq<(Seq<u64>, T)> {
    Seq::new(items.len(), |i: int| (keys[i], items[i]))
}

/// The pairs of key and item, as a multiset.
pub open spec fn pairs<T>(keys: Seq<Seq<u64>>, items: Seq<T>) -> Multiset<(Seq<u64>, T)> {
    pair_seq(keys, items).to_multiset()
}

/// Sorts items by their keys (`keys[i]` is the key of `items[i]`); items with equal keys
/// keep their order. Each item keeps its key.
pub fn sort_keyed<T>(items: Vec<T>, keys: Vec<Vec<u64>>) -> (r: (Vec<T>, Vec<Vec<u64>>))
    requires
        items@.len() == keys@.len(),
    ensures
        r.0@.len() == items@.len(),
        r.1@.len() == r.0@.len(),
        keys_sorted(key_views(r.1@)),
        pairs(key_views(r.1@), r.0@) == pairs(key_views(keys@), items@),
{
    broadcast use vstd::seq_lib::group_to_multiset_ensures;

    let ghost in_items = items@;
    let ghost in_keys = key_views(keys@);
    let ghost all = Seq::new(in_items.len(), |i: int| (in_keys[i], in_items[i]));
    let mut items = items;
    let mut keys = keys;
    let mut out: Vec<T> = Vec::new();
    let mut out_keys: Vec<Vec<u64>> = Vec::new();
    let n = items.len();
    let mut taken: usize = 0;
    while items.len() > 0
        invariant
            n == in_items.len(),
            n == in_keys.len(),
            n == all.len(),
            all == Seq::new(in_items.len(), |i: int| (in_keys[i], in_items[i])),
            items@.len() == keys@.len(),
            items@.len() + taken == n,
            items@ == in_items.subrange(taken as int, n as int),
            key_views(keys@) == in_keys.subrange(taken as int, n as int),
            out@.len() == out_keys@.len(),
            out@.len() == taken,
            keys_sorted(key_views(out_keys@)),
            Seq::new(out@.len(), |i: int| (key_views(out_keys@)[i], out@[i])).to_multiset()
                == all.subrange(0, taken as int).to_multiset(),
        decreases items@.len(),
    {
        let ghost keys_before = keys@;
        let x = items.remove(0);
        let kx = keys.remove(0);
        assert(keys_before.len() > 0);
        assert(kx == keys_before[0]);
        assert(key_views(keys_before)[0] == keys_before[0]@);
        assert(in_keys.subrange(taken as int, n as int)[0] == in_keys[taken as int]);
        assert(x == in_items[taken as int]);
        assert(kx@ == in_keys[taken as int]);
        assert(all[taken as int] == (kx@, x));
        let mut p: usize = out.len();
        while p > 0
            invariant
                p <= out_keys@.len(),
                out@.len() == out_keys@.len(),
                forall|j: int| p <= j < out_keys@.len() ==> !lex_le(#[trigger] key_views(out_keys@)[j], kx@),
            ensures
                p <= out_keys@.len(),
                forall|j: int| p <= j < out_keys@.len() ==> !lex_le(#[trigger] key_views(out_keys@)[j], kx@),
                p > 0 ==> lex_le(key_views(out_keys@)[p - 1], kx@),
            decreases p,
        {
            if lex_le_vec(&out_keys[p - 1], &kx) {
                break;
            }
            p = p - 1;
        }
        let ghost old_keys = key_views(out_keys@);
        let ghost old_out = out@;
        let ghost old_pairs = Seq::new(old_out.len(), |i: int| (old_keys[i], old_out[i]));
        proof {
            if p > 0 {
                assert(lex_le(old_keys[p - 1], kx@));
            }
        }
        out.insert(p, x);
        out_keys.insert(p, kx);
        let ghost new_keys = key_views(out_keys@);
        assert forall|j: int| 0 <= j < new_keys.len() implies #[trigger] new_keys[j] == (if j < p {
            old_keys[j]
        } else if j == p {
            kx@
        } else {
            old_keys[j - 1]
        }) by {}
        assert forall|a: int, b: int| 0 <= a < b < new_keys.len() implies lex_le(
            #[trigger] new_keys[a],
            #[trigger] new_keys[b],
        ) by {
            if b < p {
            } else if b == p {
                if a < p - 1 {
                    lemma_lex_transitive(old_keys[a], old_keys[p - 1], kx@);
                }
            } else if a == p {
                lemma_lex_total(old_keys[b - 1], kx@);
            } else if a < p {
                if p < old_keys.len() {
                    lemma_lex_total(old_keys[p as int], kx@);
                }
            } else {
            }
        }
        let ghost new_pairs = Seq::new(out@.len(), |i: int| (key_views(out_keys@)[i], out@[i]));
        assert(new_pairs =~= old_pairs.insert(p as int, (kx@, x)));
        proof {
            vstd::seq_lib::to_multiset_insert(old_pairs, p as int, (kx@, x));
            assert(all.subrange(0, taken + 1) =~= all.subrange(0, taken as int).push((kx@, x)));
            vstd::seq_lib::to_multiset_build(all.subrange(0, taken as int), (kx@, x));
        }
        taken = taken + 1;
        assert(items@ =~= in_items.subrange(taken as int, n as int));
        assert forall|j: int| 0 <= j < key_views(keys@).len() implies #[trigger] key_views(keys@)[j]
            == in_keys.subrange(taken as int, n as int)[j] by {
            assert(keys@[j] == keys_before[j + 1]);
            assert(key_views(keys_before)[j + 1] == keys_before[j + 1]@);
        }
        assert(key_views(keys@) =~= in_keys.subrange(taken as int, n as int));
    }
    assert(all.subrange(0, n as int) =~= all);
    (out, out_keys)
}

/// Whether `a` comes no later than `b` in lexicographic order.
pub fn lex_le_vec(a: &Vec<u64>, b: &Vec<u64>) -> (r: bool)
    ensures
        r == lex_le(a@, b@),
{
    crate::duplicates::order::lex_le_exec(a, b)
}

/// Whether two keys are equal.
pub fn keys_equal(a: &Vec<u64>, b: &Vec<u64>) -> (r: bool)
    ensures
        r == (a@ == b@),
{
    if a.len() != b.len() {
        return false;
    }
    let mut i: usize = 0;
    while i < a.len()
        invariant
            a@.len() == b@.len(),
            i <= a@.len(),
            forall|j: int| 0 <= j < i ==> a@[j] == b@[j],
        decreases a@.len() - i,
    {
        if a[i] != b[i] {
            return false;
        }
        i = i + 1;
    }
    assert(a@ =~= b@);
    true
}

/// Every key comes strictly before each later one: sorted, with no key twice.
pub open spec fn strictly_sorted(keys: Seq<Seq<u64>>) -> bool {
    forall|i: int, j: int|
        0 <= i < j < keys.len() ==> lex_le(#[trigger] keys[i], #[trigger] keys[j]) && keys[i] != keys[j]
}

/// Item `x` was given with key `k`.
pub open spec fn comes_from<T>(k: Seq<u64>, x: T, keys: Seq<Seq<u64>>, items: Seq<T>) -> bool {
    exists|p: int| 0 <= p < items.len() && keys[p] == k && items[p] == x
}

/// Key `k` is one of `keys`.
pub open spec fn key_present(k: Seq<u64>, keys: Seq<Seq<u64>>) -> bool {
    exists|p: int| 0 <= p < keys.len() && keys[p] == k
}

/// Sorts items by their keys and keeps, of the items that share a key, the one that came
/// first. Every key of the input survives, each with an item it was given with.
pub fn sort_dedup_keyed<T>(items: Vec<T>, keys: Vec<Vec<u64>>) -> (r: (Vec<T>, Vec<Vec<u64>>))
    requires
        items@.len() == keys@.len(),
    ensures
        r.0@.len() == r.1@.len(),
        r.0@.len() <= items@.len(),
        strictly_sorted(key_views(r.1@)),
        forall|k: int| 0 <= k < r.0@.len() ==> comes_from(#[trigger] key_views(r.1@)[k], r.0@[k], key_views(keys@), items@),
        forall|i: int| 0 <= i < keys@.len() ==> key_present(#[trigger] key_views(keys@)[i], key_views(r.1@)),
{
    broadcast use vstd::seq_lib::group_to_multiset_ensures;

    let ghost in_pairs = pair_seq(key_views(keys@), items@);
    let ghost in_keys = key_views(keys@);
    let ghost in_items = items@;
    let (sorted, sorted_keys) = sort_keyed(items, keys);
    let ghost s_keys = key_views(sorted_keys@);
    let ghost all_items = sorted@;
    let ghost s_pairs = pair_seq(s_keys, all_items);
    assert(s_pairs.to_multiset() == in_pairs.to_multiset());
    assert forall|q: int| 0 <= q < all_items.len() implies comes_from(#[trigger] s_keys[q], all_items[q], in_keys, in_items) by {
        assert(s_pairs[q] == (s_keys[q], all_items[q]));
        assert(s_pairs.contains(s_pairs[q]));
        assert(in_pairs.to_multiset().count(s_pairs[q]) > 0);
        assert(in_pairs.contains(s_pairs[q]));
        let p = choose|p: int| 0 <= p < in_pairs.len() && in_pairs[p] == s_pairs[q];
        assert(in_pairs[p] == (in_keys[p], in_items[p]));
    }
    assert forall|p: int| 0 <= p < in_keys.len() implies key_present(#[trigger] in_keys[p], s_keys) by {
        assert(in_pairs[p] == (in_keys[p], in_items[p]));
        assert(in_pairs.contains(in_pairs[p]));
        assert(s_pairs.to_multiset().count(in_pairs[p]) > 0);
        assert(s_pairs.contains(in_pairs[p]));
        let q = choose|q: int| 0 <= q < s_pairs.len() && s_pairs[q] == in_pairs[p];
        assert(s_pairs[q] == (s_keys[q], all_items[q]));
    }
    let mut sorted = sorted;
    let mut sorted_keys = sorted_keys;
    let n = sorted.len();
    let mut out: Vec<T> = Vec::new();
    let mut out_keys: Vec<Vec<u64>> = Vec::new();
    let mut i: usize = 0;
    while sorted.len() > 0
        invariant
            n == all_items.len(),
            n == s_keys.len(),
            sorted@.len() + i == n,
            sorted_keys@.len() + i == n,
            sorted@ == all_items.subrange(i as int, n as int),
            key_views(sorted_keys@) == s_keys.subrange(i as int, n as int),
            keys_sorted(s_keys),
            forall|q: int| 0 <= q < all_items.len() ==> comes_from(#[trigger] s_keys[q], all_items[q], in_keys, in_items),
            forall|p: int| 0 <= p < in_keys.len() ==> key_present(#[trigger] in_keys[p], s_keys),
            out@.len() == out_keys@.len(),
            out@.len() <= i,
            strictly_sorted(key_views(out_keys@)),
            i > 0 ==> out_keys@.len() > 0 && key_views(out_keys@).last() == s_keys[i - 1],
            i == 0 ==> out_keys@.len() == 0,
            forall|k: int| 0 <= k < out@.len() ==> comes_from(#[trigger] key_views(out_keys@)[k], out@[k], s_keys.subrange(0, i as int), all_items.subrange(0, i as int)),
            forall|q: int| 0 <= q < i ==> key_present(#[trigger] s_keys[q], key_views(out_keys@)),
        decreases sorted@.len(),
    {
        let ghost items_before = sorted@;
        let ghost keys_before = sorted_keys@;
        let x = sorted.remove(0);
        let kx = sorted_keys.remove(0);
        assert(key_views(keys_before)[0] == keys_before[0]@);
        assert(s_keys.subrange(i as int, n as int)[0] == s_keys[i as int]);
        assert(x == all_items[i as int]);
        assert(kx@ == s_keys[i as int]);
        let fresh = if out_keys.len() == 0 {
            true
        } else {
            !keys_equal(&out_keys[out_keys.len() - 1], &kx)
        };
        let ghost ok_before = key_views(out_keys@);
        let ghost o_before = out@;
        let ghost sk_next = s_keys.subrange(0, i + 1);
        let ghost ai_next = all_items.subrange(0, i + 1);
        assert forall|k: int| 0 <= k < o_before.len() implies comes_from(#[trigger] ok_before[k], o_before[k], sk_next, ai_next) by {
            assert(comes_from(ok_before[k], o_before[k], s_keys.subrange(0, i as int), all_items.subrange(0, i as int)));
            let p = choose|p: int| 0 <= p < i && s_keys.subrange(0, i as int)[p] == ok_before[k] && all_items.subrange(0, i as int)[p] == o_before[k];
            assert(sk_next[p] == ok_before[k] && ai_next[p] == o_before[k]);
        }
        if fresh {
            proof {
                if i > 0 {
                    assert(ok_before.last() == s_keys[i - 1]);
                    assert(lex_le(s_keys[i - 1], s_keys[i as int]));
                    assert forall|a: int| 0 <= a < ok_before.len() implies lex_le(
                        #[trigger] ok_before[a],
                        kx@,
                    ) && ok_before[a] != kx@ by {
                        let last = ok_before.len() - 1;
                        if a < last {
                            assert(lex_le(ok_before[a], ok_before[last]));
                            lemma_lex_transitive(ok_before[a], ok_before[last], kx@);
                            if ok_before[a] == kx@ {
                                lemma_lex_antisymmetric(ok_before[last], kx@);
                            }
                        }
                    }
                }
            }
            out.push(x);
            out_keys.push(kx);
            proof {
                let nk = key_views(out_keys@);
                assert(nk =~= ok_before.push(s_keys[i as int]));
                assert forall|a: int, b: int| 0 <= a < b < nk.len() implies lex_le(
                    #[trigger] nk[a],
                    #[trigger] nk[b],
                ) && nk[a] != nk[b] by {
                    if b < ok_before.len() {
                        assert(nk[a] == ok_before[a]);
                        assert(nk[b] == ok_before[b]);
                    }
                }
                assert forall|k: int| 0 <= k < out@.len() implies comes_from(#[trigger] nk[k], out@[k], sk_next, ai_next) by {
                    if k < o_before.len() {
                        assert(out@[k] == o_before[k]);
                        assert(nk[k] == ok_before[k]);
                    } else {
                        assert(nk[k] == s_keys[i as int]);
                        assert(sk_next[i as int] == nk[k] && ai_next[i as int] == out@[k]);
                    }
                }
                assert forall|q: int| 0 <= q < i + 1 implies key_present(#[trigger] s_keys[q], nk) by {
                    if q < i {
                        assert(key_present(s_keys[q], ok_before));
                        let k = choose|k: int| 0 <= k < ok_before.len() && ok_before[k] == s_keys[q];
                        assert(nk[k] == ok_before[k]);
                    } else {
                        assert(nk[ok_before.len() as int] == s_keys[q]);
                    }
                }
            }
        } else {
            proof {
                assert(ok_before.last() == kx@);
                assert forall|q: int| 0 <= q < i + 1 implies key_present(#[trigger] s_keys[q], ok_before) by {
                    if q == i {
                        assert(ok_before[ok_before.len() - 1] == s_keys[q]);
                    }
                }
            }
        }
        i = i + 1;
        assert(sorted@ =~= all_items.subrange(i as int, n as int));
        assert forall|j: int| 0 <= j < key_views(sorted_keys@).len() implies #[trigger] key_views(sorted_keys@)[j]
            == s_keys.subrange(i as int, n as int)[j] by {
            assert(sorted_keys@[j] == keys_before[j + 1]);
            assert(key_views(keys_before)[j + 1] == keys_before[j + 1]@);
        }
        assert(key_views(sorted_keys@) =~= s_keys.subrange(i as int, n as int));
    }
    proof {
        let ok = key_views(out_keys@);
        assert(s_keys.subrange(0, n as int) =~= s_keys);
        assert(all_items.subrange(0, n as int) =~= all_items);
        assert forall|k: int| 0 <= k < out@.len() implies comes_from(#[trigger] ok[k], out@[k], in_keys, in_items) by {
            assert(comes_from(ok[k], out@[k], s_keys, all_items));
            let q = choose|q: int| 0 <= q < n && s_keys[q] == ok[k] && all_items[q] == out@[k];
            assert(comes_from(s_keys[q], all_items[q], in_keys, in_items));
        }
        assert forall|p: int| 0 <= p < in_keys.len() implies key_present(#[trigger] in_keys[p], ok) by {
            assert(key_present(in_keys[p], s_keys));
            let q = choose|q: int| 0 <= q < n && s_keys[q] == in_keys[p];
            assert(key_present(s_keys[q], ok));
        }
    }
    (out, out_keys)
}

} // verus!
