//! Filesystem paths held as strings, with the component semantics of `std::path::Path`.
//!
//! A path is split at `/`; empty segments and `.` segments are not components, except
//! that a relative path beginning with a `.` segment keeps it as its first component.
//! A path that begins with `/` carries the root as its first component, written `"/"`,
//! which no ordinary component can equal. Two paths are equal, and one starts with
//! another, by their component sequences, as `Path::eq` and `Path::starts_with` decide.

use vstd::prelude::*;
use crate::text::{chars_eq, concat2, concat3, owned, str_chars, string_from_chars};

verus! {

/// The segments of a string between `/` separators, empty ones included.
pub open spec fn raw_segments(s: Seq<char>) -> Seq<Seq<char>>
    decreases s.len(),
{
    if s.len() == 0 {
        seq![Seq::empty()]
    } else {
        let prev = raw_segments(s.drop_last());
        if s.last() == '/' {
            prev.push(Seq::empty())
        } else {
            prev.update(prev.len() - 1, prev.last().push(s.last()))
        }
    }
}

/// A segment that counts as a component: neither empty nor `.`.
pub open spec fn is_component(seg: Seq<char>) -> bool {
    seg.len() > 0 && seg != seq!['.']
}

/// The segments that are components, in order.
pub open spec fn keep_components(segs: Seq<Seq<char>>) -> Seq<Seq<char>>
    decreases segs.len(),
{
    if segs.len() == 0 {
        Seq::empty()
    } else {
        let prev = keep_components(segs.drop_last());
        if is_component(segs.last()) {
            prev.push(segs.last())
        } else {
            prev
        }
    }
}

/// The root component of an absolute path.
pub open spec fn root_component() -> Seq<char> {
    seq!['/']
}

/// A path that begins with the root.
pub open spec fn is_absolute(s: Seq<char>) -> bool {
    s.len() > 0 && s[0] == '/'
}

/// The ordinary (non-root) components of a path.
pub open spec fn normal_components(s: Seq<char>) -> Seq<Seq<char>> {
    keep_components(raw_segments(s))
}

/// A relative path that begins with a `.` segment, which `Path` keeps as its first
/// component.
pub open spec fn leading_cur_dir(s: Seq<char>) -> bool {
    &&& s.len() > 0
    &&& s[0] == '.'
    &&& (s.len() == 1 || s[1] == '/')
}

/// All components of a path: the root first where the path is absolute, a `.` first where
/// a relative path begins with one, then the ordinary components.
pub open spec fn components(s: Seq<char>) -> Seq<Seq<char>> {
    if is_absolute(s) {
        seq![root_component()] + normal_components(s)
    } else if leading_cur_dir(s) {
        seq![seq!['.']] + normal_components(s)
    } else {
        normal_components(s)
    }
}

/// `Path::eq`: the same components.
pub open spec fn path_eq(a: Seq<char>, b: Seq<char>) -> bool {
    components(a) == components(b)
}

/// `Path::starts_with`: the components of `base` are a prefix of those of `p`.
pub open spec fn path_starts_with(p: Seq<char>, base: Seq<char>) -> bool {
    components(base).is_prefix_of(components(p))
}

/// `PathBuf::push` / `Path::join`: an absolute `rel` replaces `base`; otherwise the two are
/// joined with one separator unless `base` is empty or already ends with one.
pub open spec fn path_join(base: Seq<char>, rel: Seq<char>) -> Seq<char> {
    if is_absolute(rel) {
        rel
    } else if base.len() == 0 || base.last() == '/' {
        base + rel
    } else {
        base + seq!['/'] + rel
    }
}

/// `Path::file_name`: the last component, unless the path has none, ends in the root,
/// or ends in `..`.
pub open spec fn file_name(s: Seq<char>) -> Option<Seq<char>> {
    let comps = normal_components(s);
    if comps.len() == 0 || comps.last() == seq!['.', '.'] {
        None
    } else {
        Some(comps.last())
    }
}

/// The character sequences held by a vector of character vectors.
pub open spec fn vs(v: Seq<Vec<char>>) -> Seq<Seq<char>> {
    v.map_values(|x: Vec<char>| x@)
}

proof fn lemma_raw_segments_nonempty(s: Seq<char>)
    ensures
        raw_segments(s).len() >= 1,
    decreases s.len(),
{
    if s.len() > 0 {
        lemma_raw_segments_nonempty(s.drop_last());
    }
}

/// The component list of a string, built left to right.
fn split_components(cs: &Vec<char>) -> (out: Vec<Vec<char>>)
    ensures
        vs(out@) == normal_components(cs@),
{
    let mut out: Vec<Vec<char>> = Vec::new();
    let mut cur: Vec<char> = Vec::new();
    let ghost mut done: Seq<Seq<char>> = Seq::empty();
    let mut i: usize = 0;
    proof {
        assert(cs@.subrange(0, 0) =~= Seq::<char>::empty());
        assert(raw_segments(Seq::<char>::empty()) =~= seq![Seq::<char>::empty()]);
        assert(done.push(cur@) =~= seq![Seq::<char>::empty()]);
    }
    while i < cs.len()
        invariant
            i <= cs@.len(),
            raw_segments(cs@.subrange(0, i as int)) == done.push(cur@),
            vs(out@) == keep_components(done),
        decreases cs@.len() - i,
    {
        let c = cs[i];
        let ghost prefix = cs@.subrange(0, i as int);
        let ghost next = cs@.subrange(0, i + 1);
        proof {
            assert(next.drop_last() =~= prefix);
            assert(next.last() == c);
        }
        if c == '/' {
            proof {
                assert(keep_components(done.push(cur@)).len() >= 0);
                assert(done.push(cur@).drop_last() =~= done);
            }
            if cur.len() > 0 && !(cur.len() == 1 && cur[0] == '.') {
                proof {
                    assert(is_component(cur@));
                }
                let ghost old_out = out@;
                out.push(cur);
                proof {
                    assert(vs(out@) =~= vs(old_out).push(cur@));
                }
            } else {
                proof {
                    if cur@.len() == 1 {
                        assert(cur@ =~= seq!['.']);
                    }
                    assert(!is_component(cur@));
                }
            }
            proof {
                done = done.push(cur@);
            }
            cur = Vec::new();
            proof {
                assert(raw_segments(next) =~= done.push(cur@));
            }
        } else {
            let ghost old_cur = cur@;
            cur.push(c);
            proof {
                assert(raw_segments(next) =~= done.push(cur@));
            }
        }
        i = i + 1;
    }
    proof {
        assert(cs@.subrange(0, cs@.len() as int) =~= cs@);
        assert(done.push(cur@).drop_last() =~= done);
    }
    if cur.len() > 0 && !(cur.len() == 1 && cur[0] == '.') {
        proof {
            assert(is_component(cur@));
        }
        let ghost old_out = out@;
        let ghost cv = cur@;
        out.push(cur);
        proof {
            assert(vs(out@) =~= vs(old_out).push(cv));
        }
    } else {
        proof {
            if cur@.len() == 1 {
                assert(cur@ =~= seq!['.']);
            }
            assert(!is_component(cur@));
        }
    }
    out
}

/// The component list of a path: the root marker first where it is absolute, a `.` first
/// where a relative path begins with one.
pub fn path_components(p: &str) -> (out: Vec<Vec<char>>)
    ensures
        vs(out@) == components(p@),
{
    let cs = str_chars(p);
    let normal = split_components(&cs);
    let absolute = cs.len() > 0 && cs[0] == '/';
    let cur_dir = cs.len() > 0 && cs[0] == '.' && (cs.len() == 1 || cs[1] == '/');
    if absolute || cur_dir {
        let mut out: Vec<Vec<char>> = Vec::new();
        let mut first: Vec<char> = Vec::new();
        first.push(if absolute { '/' } else { '.' });
        let ghost lead: Seq<char> = if absolute { root_component() } else { seq!['.'] };
        assert(first@ =~= lead);
        out.push(first);
        assert(vs(out@) =~= seq![lead] + vs(normal@).subrange(0, 0));
        let mut i: usize = 0;
        while i < normal.len()
            invariant
                i <= vs(normal@).len(),
                vs(out@) =~= seq![lead] + vs(normal@).subrange(
                    0,
                    i as int,
                ),
            decreases vs(normal@).len() - i,
        {
            let ghost old_out = out@;
            let item = normal[i].clone();
            out.push(item);
            proof {
                assert(vs(out@) =~= vs(old_out).push(normal@[i as int]@));
                assert(vs(normal@).subrange(0, i + 1) =~= vs(normal@).subrange(0, i as int).push(
                    normal@[i as int]@,
                ));
            }
            i = i + 1;
        }
        assert(vs(normal@).subrange(0, vs(normal@).len() as int)
            =~= vs(normal@));
        out
    } else {
        normal
    }
}

/// Whether the component sequence `a` is a prefix of `b`.
fn components_prefix(a: &Vec<Vec<char>>, b: &Vec<Vec<char>>) -> (r: bool)
    ensures
        r == vs(a@).is_prefix_of(vs(b@)),
{
    if a.len() > b.len() {
        return false;
    }
    let mut i: usize = 0;
    while i < a.len()
        invariant
            vs(a@).len() <= vs(b@).len(),
            i <= vs(a@).len(),
            forall|j: int| 0 <= j < i ==> vs(a@)[j] == vs(b@)[j],
        decreases vs(a@).len() - i,
    {
        if !chars_eq(a[i].as_slice(), b[i].as_slice()) {
            assert(vs(b@).subrange(0, vs(a@).len() as int)[i as int] == vs(b@)[i as int]);
            assert(vs(a@)[i as int] != vs(b@)[i as int]);
            return false;
        }
        i = i + 1;
    }
    assert(vs(a@) =~= vs(b@).subrange(0, vs(a@).len() as int));
    true
}

/// `Path::starts_with`.
pub fn starts_with(p: &str, base: &str) -> (r: bool)
    ensures
        r == path_starts_with(p@, base@),
{
    let pc = path_components(p);
    let bc = path_components(base);
    components_prefix(&bc, &pc)
}

/// `Path::eq`.
pub fn paths_equal(a: &str, b: &str) -> (r: bool)
    ensures
        r == path_eq(a@, b@),
{
    let ac = path_components(a);
    let bc = path_components(b);
    let r1 = components_prefix(&ac, &bc);
    let r2 = components_prefix(&bc, &ac);
    proof {
        if r1 && r2 {
            assert(vs(ac@) =~= vs(bc@));
        }
    }
    r1 && r2
}

/// `Path::file_name`.
pub fn file_name_of(p: &str) -> (r: Option<String>)
    ensures
        match r {
            Some(s) => file_name(p@) == Some(s@),
            None => file_name(p@) is None,
        },
{
    let cs = str_chars(p);
    let comps = split_components(&cs);
    let n = comps.len();
    if n == 0 {
        return None;
    }
    let last = &comps[n - 1];
    assert(vs(comps@).last() == last@);
    if last.len() == 2 && last[0] == '.' && last[1] == '.' {
        assert(last@ =~= seq!['.', '.']);
        return None;
    }
    proof {
        if last@ == seq!['.', '.'] {
            assert(last@[0] == '.' && last@[1] == '.');
        }
    }
    Some(string_from_chars(last.as_slice()))
}

/// `Path::join`.
pub fn join(base: &str, rel: &str) -> (out: String)
    ensures
        out@ == path_join(base@, rel@),
{
    proof {
        reveal_strlit("/");
    }
    let bc = str_chars(base);
    let rc = str_chars(rel);
    if rc.len() > 0 && rc[0] == '/' {
        owned(rel)
    } else if bc.len() == 0 || bc[bc.len() - 1] == '/' {
        concat2(base, rel)
    } else {
        concat3(base, "/", rel)
    }
}

/// The path without its trailing separators.
pub open spec fn trim_trailing_separators(s: Seq<char>) -> Seq<char>
    decreases s.len(),
{
    if s.len() > 0 && s.last() == '/' {
        trim_trailing_separators(s.drop_last())
    } else {
        s
    }
}

/// The path without the characters after its last separator.
pub open spec fn drop_last_name(s: Seq<char>) -> Seq<char>
    decreases s.len(),
{
    if s.len() > 0 && s.last() != '/' {
        drop_last_name(s.drop_last())
    } else {
        s
    }
}

/// The length of the path without its trailing separators.
pub fn trim_separators_len(cs: &Vec<char>) -> (n: usize)
    ensures
        n <= cs@.len(),
        cs@.subrange(0, n as int) == trim_trailing_separators(cs@),
{
    let mut n: usize = cs.len();
    assert(cs@.subrange(0, cs@.len() as int) =~= cs@);
    while n > 0 && cs[n - 1] == '/'
        invariant
            n <= cs@.len(),
            trim_trailing_separators(cs@.subrange(0, n as int)) == trim_trailing_separators(cs@),
        decreases n,
    {
        assert(cs@.subrange(0, n as int).drop_last() =~= cs@.subrange(0, n - 1));
        n = n - 1;
    }
    assert(cs@.subrange(0, cs@.len() as int) =~= cs@);
    n
}

/// The length of the path without the characters after its last separator.
pub fn drop_name_len(cs: &Vec<char>) -> (n: usize)
    ensures
        n <= cs@.len(),
        cs@.subrange(0, n as int) == drop_last_name(cs@),
{
    let mut n: usize = cs.len();
    assert(cs@.subrange(0, cs@.len() as int) =~= cs@);
    while n > 0 && cs[n - 1] != '/'
        invariant
            n <= cs@.len(),
            drop_last_name(cs@.subrange(0, n as int)) == drop_last_name(cs@),
        decreases n,
    {
        assert(cs@.subrange(0, n as int).drop_last() =~= cs@.subrange(0, n - 1));
        n = n - 1;
    }
    assert(cs@.subrange(0, cs@.len() as int) =~= cs@);
    n
}

} // verus!
