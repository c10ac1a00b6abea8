//! The deterministic order in which duplicate copies are ranked for retention.

use vstd::prelude::*;
use crate::duplicates::detect::CandidateFile;
use crate::duplicates::model::RetainedRule;
use crate::paths::{components, path_components, vs};

verus! {

/// Lexicographic order on sequences of integers; a proper prefix comes first.
pub open spec fn lex_le(a: Seq<u64>, b: Seq<u64>) -> bool
    decreases a.len(),
{
    if a.len() == 0 {
        true
    } else if b.len() == 0 {
        false
    } else if a[0] < b[0] {
        true
    } else if a[0] > b[0] {
        false
    } else {
        lex_le(a.drop_first(), b.drop_first())
    }
}

/// Any two sequences are ordered one way or the other.
pub proof fn lemma_lex_total(a: Seq<u64>, b: Seq<u64>)
    ensures
        lex_le(a, b) || lex_le(b, a),
    decreases a.len(),
{
    if a.len() > 0 && b.len() > 0 && a[0] == b[0] {
        lemma_lex_total(a.drop_first(), b.drop_first());
    }
}

/// The order is transitive.
pub proof fn lemma_lex_transitive(a: Seq<u64>, b: Seq<u64>, c: Seq<u64>)
    requires
        lex_le(a, b),
        lex_le(b, c),
    ensures
        lex_le(a, c),
    decreases a.len(),
{
    if a.len() > 0 && b.len() > 0 && c.len() > 0 && a[0] == b[0] && b[0] == c[0] {
        lemma_lex_transitive(a.drop_first(), b.drop_first(), c.drop_first());
    }
}

/// Two sequences each ordered before the other are equal.
pub proof fn lemma_lex_antisymmetric(a: Seq<u64>, b: Seq<u64>)
    requires
        lex_le(a, b),
        lex_le(b, a),
    ensures
        a == b,
    decreases a.len(),
{
    if a.len() > 0 {
        lemma_lex_antisymmetric(a.drop_first(), b.drop_first());
        assert forall|i: int| 0 <= i < a.len() implies a[i] == b[i] by {
            if i > 0 {
                assert(a[i] == a.drop_first()[i - 1]);
                assert(b[i] == b.drop_first()[i - 1]);
            }
        }
        assert(a =~= b);
    } else {
        assert(b.len() == 0);
        assert(a =~= b);
    }
}

/// Where a path component sorts among the kinds of component: the root before a parent
/// reference, and both before a normal name.
pub open spec fn component_rank(c: Seq<char>) -> u64 {
    if c == seq!['/'] {
        1
    } else if c == seq!['.', '.'] {
        3
    } else {
        4
    }
}

/// A component as integers: its rank, its characters each shifted up by one, and a
/// terminating zero, so that a shorter name sorts before any longer name it begins.
pub open spec fn component_key(c: Seq<char>) -> Seq<u64> {
    seq![component_rank(c)] + c.map_values(|ch: char| ((ch as u32) as u64 + 1) as u64) + seq![0u64]
}

pub open spec fn components_key(cs: Seq<Seq<char>>) -> Seq<u64>
    decreases cs.len(),
{
    if cs.len() == 0 {
        Seq::empty()
    } else {
        components_key(cs.drop_last()) + component_key(cs.last())
    }
}

/// The order of paths compares them component by component, each component by kind and
/// then by its characters' code points (which is the order of their UTF-8 bytes).
pub open spec fn path_order_key(p: Seq<char>) -> Seq<u64> {
    components_key(components(p))
}

pub open spec fn modified_or(m: Option<u64>, default: u64) -> u64 {
    match m {
        Some(v) => v,
        None => default,
    }
}

/// The length of the path in UTF-8 bytes.
pub open spec fn path_byte_len(c: CandidateFile) -> u64 {
    (vstd::utf8::encode_utf8(c.path@).len() as usize) as u64
}

/// The key by which copies are ranked under a rule; the first in key order is retained.
/// Oldest: modification time (unknown last), then path length, then canonical path.
/// Newest: modification time descending (unknown last), then path length, then canonical
/// path. Shortest path: path length, then modification time (unknown last), then
/// canonical path.
pub open spec fn retained_key(rule: RetainedRule, c: CandidateFile) -> Seq<u64> {
    match rule {
        RetainedRule::OldestByModified => seq![modified_or(c.modified_ms, u64::MAX), path_byte_len(c)]
            + path_order_key(c.canonical_path@),
        RetainedRule::NewestByModified => seq![
            (u64::MAX - modified_or(c.modified_ms, 0)) as u64,
            path_byte_len(c),
        ] + path_order_key(c.canonical_path@),
        RetainedRule::ShortestPath => seq![path_byte_len(c), modified_or(c.modified_ms, u64::MAX)]
            + path_order_key(c.canonical_path@),
    }
}

/// `cs` is in retention order under `rule`.
pub open spec fn sorted_for(rule: RetainedRule, cs: Seq<CandidateFile>) -> bool {
    forall|i: int, j: int|
        0 <= i < j < cs.len() ==> lex_le(
            #[trigger] retained_key(rule, cs[i]),
            #[trigger] retained_key(rule, cs[j]),
        )
}

fn component_key_exec(c: &Vec<char>) -> (k: Vec<u64>)
    ensures
        k@ == component_key(c@),
{
    let mut k: Vec<u64> = Vec::new();
    let n = c.len();
    let rank: u64 = if n == 1 && c[0] == '/' {
        1
    } else if n == 2 && c[0] == '.' && c[1] == '.' {
        3
    } else {
        4
    };
    proof {
        if n == 1 && c@[0] == '/' {
            assert(c@ =~= seq!['/']);
        }
        if n == 2 && c@[0] == '.' && c@[1] == '.' {
            assert(c@ =~= seq!['.', '.']);
        }
    }
    k.push(rank);
    let mut i: usize = 0;
    while i < n
        invariant
            n == c@.len(),
            i <= n,
            k@ == seq![component_rank(c@)] + c@.subrange(0, i as int).map_values(
                |ch: char| ((ch as u32) as u64 + 1) as u64,
            ),
        decreases n - i,
    {
        let ch = c[i];
        let v: u64 = (ch as u32) as u64 + 1;
        k.push(v);
        i = i + 1;
        assert(k@ =~= seq![component_rank(c@)] + c@.subrange(0, i as int).map_values(
            |ch: char| ((ch as u32) as u64 + 1) as u64,
        ));
    }
    assert(c@.subrange(0, n as int) =~= c@);
    k.push(0);
    k
}

/// The path order key of `p`.
pub fn path_order_key_exec(p: &str) -> (k: Vec<u64>)
    ensures
        k@ == path_order_key(p@),
{
    let comps = path_components(p);
    let ghost cs = components(p@);
    let mut k: Vec<u64> = Vec::new();
    let mut i: usize = 0;
    while i < comps.len()
        invariant
            vs(comps@) == cs,
            i <= comps@.len(),
            k@ == components_key(cs.subrange(0, i as int)),
        decreases comps@.len() - i,
    {
        let ck = component_key_exec(&comps[i]);
        assert(vs(comps@)[i as int] == comps@[i as int]@);
        let mut j: usize = 0;
        let ghost before = k@;
        while j < ck.len()
            invariant
                j <= ck@.len(),
                k@ == before + ck@.subrange(0, j as int),
            decreases ck@.len() - j,
        {
            k.push(ck[j]);
            j = j + 1;
            assert(k@ =~= before + ck@.subrange(0, j as int));
        }
        assert(ck@.subrange(0, ck@.len() as int) =~= ck@);
        assert(cs.subrange(0, i + 1).drop_last() =~= cs.subrange(0, i as int));
        i = i + 1;
    }
    assert(cs.subrange(0, cs.len() as int) =~= cs);
    k
}

/// The retention key of a candidate under a rule.
pub fn retained_key_exec(rule: RetainedRule, c: &CandidateFile) -> (k: Vec<u64>)
    ensures
        k@ == retained_key(rule, *c),
{
    let len: u64 = c.path.as_str().len() as u64;
    let mut k: Vec<u64> = Vec::new();
    match rule {
        RetainedRule::OldestByModified => {
            k.push(
                match c.modified_ms {
                    Some(v) => v,
                    None => u64::MAX,
                },
            );
            k.push(len);
        },
        RetainedRule::NewestByModified => {
            let m = match c.modified_ms {
                Some(v) => v,
                None => 0,
            };
            k.push(u64::MAX - m);
            k.push(len);
        },
        RetainedRule::ShortestPath => {
            k.push(len);
            k.push(
                match c.modified_ms {
                    Some(v) => v,
                    None => u64::MAX,
                },
            );
        },
    }
    let tail = path_order_key_exec(c.canonical_path.as_str());
    let ghost head = k@;
    let mut j: usize = 0;
    while j < tail.len()
        invariant
            j <= tail@.len(),
            k@ == head + tail@.subrange(0, j as int),
        decreases tail@.len() - j,
    {
        k.push(tail[j]);
        j = j + 1;
        assert(k@ =~= head + tail@.subrange(0, j as int));
    }
    assert(tail@.subrange(0, tail@.len() as int) =~= tail@);
    k
}

/// Whether `a` comes no later than `b` in lexicographic order.
pub fn lex_le_exec(a: &Vec<u64>, b: &Vec<u64>) -> (r: bool)
    ensures
        r == lex_le(a@, b@),
{
    let mut i: usize = 0;
    assert(a@.subrange(0, a@.len() as int) =~= a@);
    assert(b@.subrange(0, b@.len() as int) =~= b@);
    while i < a.len()
        invariant
            i <= a@.len(),
            i <= b@.len(),
            lex_le(a@, b@) == lex_le(a@.subrange(i as int, a@.len() as int), b@.subrange(i as int, b@.len() as int)),
        decreases a@.len() - i,
    {
        let ghost sa = a@.subrange(i as int, a@.len() as int);
        let ghost sb = b@.subrange(i as int, b@.len() as int);
        if i >= b.len() {
            return false;
        }
        if a[i] < b[i] {
            return true;
        }
        if a[i] > b[i] {
            return false;
        }
        assert(sa.drop_first() =~= a@.subrange(i + 1, a@.len() as int));
        assert(sb.drop_first() =~= b@.subrange(i + 1, b@.len() as int));
        i = i + 1;
    }
    true
}

/// Where `x` goes among the sorted `s`, looking from position `j`: before the first copy
/// whose key is greater than its own, after every copy whose key is not.
pub open spec fn insert_position(rule: RetainedRule, s: Seq<CandidateFile>, x: CandidateFile, j: int) -> int
    decreases s.len() - j,
{
    if j < 0 || j >= s.len() {
        s.len() as int
    } else if !lex_le(retained_key(rule, s[j]), retained_key(rule, x)) {
        j
    } else {
        insert_position(rule, s, x, j + 1)
    }
}

/// The stable sort of `s` by the rule's key: each copy in turn is placed after every copy
/// before it whose key does not exceed its own, so copies with equal keys keep their order.
pub open spec fn stable_sorted_for(rule: RetainedRule, s: Seq<CandidateFile>) -> Seq<CandidateFile>
    decreases s.len(),
{
    if s.len() == 0 {
        Seq::empty()
    } else {
        let prev = stable_sorted_for(rule, s.drop_last());
        prev.insert(insert_position(rule, prev, s.last(), 0), s.last())
    }
}

proof fn lemma_insert_position(rule: RetainedRule, s: Seq<CandidateFile>, x: CandidateFile, j: int, p: int)
    requires
        0 <= j <= p <= s.len(),
        forall|k: int| 0 <= k < p ==> lex_le(#[trigger] retained_key(rule, s[k]), retained_key(rule, x)),
        p < s.len() ==> !lex_le(retained_key(rule, s[p]), retained_key(rule, x)),
    ensures
        insert_position(rule, s, x, j) == p,
    decreases p - j,
{
    if j < p {
        assert(lex_le(retained_key(rule, s[j]), retained_key(rule, x)));
        lemma_insert_position(rule, s, x, j + 1, p);
    }
}

/// Sorts candidates so that the copy the rule retains comes first; copies whose keys tie
/// keep their relative order. The result holds exactly the candidates given.
pub fn sort_for_retained(candidates: &mut Vec<CandidateFile>, rule: RetainedRule)
    ensures
        final(candidates)@.to_multiset() == old(candidates)@.to_multiset(),
        final(candidates)@.len() == old(candidates)@.len(),
        sorted_for(rule, final(candidates)@),
        final(candidates)@ == stable_sorted_for(rule, old(candidates)@),
{
    broadcast use vstd::seq_lib::group_to_multiset_ensures;

    let ghost input = candidates@;
    let n = candidates.len();
    let mut keys: Vec<Vec<u64>> = Vec::new();
    let mut out: Vec<CandidateFile> = Vec::new();
    let mut i: usize = 0;
    while i < n
        invariant
            n == input.len(),
            candidates@ == input,
            i <= n,
            keys@.len() == out@.len(),
            out@.len() == i,
            forall|j: int| 0 <= j < out@.len() ==> #[trigger] keys@[j]@ == retained_key(rule, out@[j]),
            out@.to_multiset() == input.subrange(0, i as int).to_multiset(),
            sorted_for(rule, out@),
            out@ == stable_sorted_for(rule, input.subrange(0, i as int)),
        decreases n - i,
    {
        let x = candidates[i].duplicate();
        let kx = retained_key_exec(rule, &x);
        let mut p: usize = 0;
        while p < out.len()
            invariant
                p <= out@.len(),
                keys@.len() == out@.len(),
                forall|j: int| 0 <= j < out@.len() ==> #[trigger] keys@[j]@ == retained_key(rule, out@[j]),
                kx@ == retained_key(rule, x),
                forall|j: int| 0 <= j < p ==> lex_le(#[trigger] retained_key(rule, out@[j]), retained_key(rule, x)),
            ensures
                p <= out@.len(),
                p < out@.len() ==> !lex_le(retained_key(rule, out@[p as int]), retained_key(rule, x)),
                forall|j: int| 0 <= j < p ==> lex_le(#[trigger] retained_key(rule, out@[j]), retained_key(rule, x)),
            decreases out@.len() - p,
        {
            if !lex_le_exec(&keys[p], &kx) {
                break;
            }
            p = p + 1;
        }
        let ghost old_out = out@;
        let ghost old_keys = keys@;
        proof {
            if p < old_out.len() {
                lemma_lex_total(retained_key(rule, old_out[p as int]), retained_key(rule, x));
            }
            lemma_insert_position(rule, old_out, x, 0, p as int);
            let prefix = input.subrange(0, i + 1);
            assert(prefix.drop_last() =~= input.subrange(0, i as int));
            assert(prefix.last() == x);
        }
        out.insert(p, x);
        keys.insert(p, kx);
        proof {
            vstd::seq_lib::to_multiset_insert(old_out, p as int, x);
            vstd::seq_lib::to_multiset_build(input.subrange(0, i as int), input[i as int]);
        }
        assert forall|j: int| 0 <= j < out@.len() implies #[trigger] keys@[j]@ == retained_key(rule, out@[j]) by {
            if j < p {
                assert(keys@[j] == old_keys[j]);
            } else if j > p {
                assert(keys@[j] == old_keys[j - 1]);
            }
        }
        assert forall|a: int, b: int| 0 <= a < b < out@.len() implies lex_le(
            #[trigger] retained_key(rule, out@[a]),
            #[trigger] retained_key(rule, out@[b]),
        ) by {
            if b < p {
                assert(out@[a] == old_out[a] && out@[b] == old_out[b]);
            } else if b == p {
                assert(out@[a] == old_out[a]);
            } else if a == p {
                assert(out@[b] == old_out[b - 1]);
                if b - 1 > p {
                    lemma_lex_transitive(
                        retained_key(rule, x),
                        retained_key(rule, old_out[p as int]),
                        retained_key(rule, old_out[b - 1]),
                    );
                }
            } else if a < p {
                assert(out@[a] == old_out[a] && out@[b] == old_out[b - 1]);
            } else {
                assert(out@[a] == old_out[a - 1] && out@[b] == old_out[b - 1]);
            }
        }
        assert(input.subrange(0, i + 1) =~= input.subrange(0, i as int).push(input[i as int]));
        i = i + 1;
    }
    assert(input.subrange(0, n as int) =~= input);
    *candidates = out;
}

} // verus!
