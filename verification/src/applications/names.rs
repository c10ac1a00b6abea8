//! Names and identities that tie a file under a per-user data directory to an application.

use vstd::prelude::*;
use crate::paths::{components, file_name, path_components, path_starts_with, root_component, starts_with, vs};
use crate::text::{
    ascii_lower, ascii_lower_seq, chars_contain, chars_end_with, chars_range, chars_start_with,
    is_ascii_alnum, seq_contains_sub, seq_ends_with, seq_starts_with, str_chars,
    string_from_chars, ascii_lowercase,
};

verus! {

/// The ASCII letters and digits of a name, in order.
pub open spec fn alnum_only(s: Seq<char>) -> Seq<char> {
    s.filter(|c: char| is_ascii_alnum(c))
}

/// A name reduced to its ASCII letters and digits, lower-cased.
pub open spec fn normalized(s: Seq<char>) -> Seq<char> {
    ascii_lower_seq(alnum_only(s))
}

proof fn lemma_alnum_only_push(s: Seq<char>, c: char)
    ensures
        alnum_only(s.push(c)) == if is_ascii_alnum(c) {
            alnum_only(s).push(c)
        } else {
            alnum_only(s)
        },
{
    reveal(Seq::filter);
    assert(s.push(c).drop_last() =~= s);
    assert(s.push(c).last() == c);
}

/// Keeps the ASCII letters and digits of `value`, lower-cased.
pub fn normalize_name(value: &str) -> (out: String)
    ensures
        out@ == normalized(value@),
{
    let cs = str_chars(value);
    let mut out: Vec<char> = Vec::new();
    let mut i: usize = 0;
    while i < cs.len()
        invariant
            cs@ == value@,
            i <= cs@.len(),
            out@ == normalized(cs@.subrange(0, i as int)),
        decreases cs@.len() - i,
    {
        let c = cs[i];
        let ghost before = cs@.subrange(0, i as int);
        let ghost next = cs@.subrange(0, i + 1);
        assert(next.drop_last() =~= before);
        assert(next =~= before.push(c));
        proof {
            lemma_alnum_only_push(before, c);
        }
        if ('0' <= c && c <= '9') || ('a' <= c && c <= 'z') || ('A' <= c && c <= 'Z') {
            out.push(crate::text::ascii_lower_char(c));
            assert(ascii_lower_seq(alnum_only(before).push(c)) =~= ascii_lower_seq(alnum_only(before)).push(ascii_lower(c)));
            assert(out@ =~= normalized(next));
        } else {
            assert(out@ =~= normalized(next));
        }
        i = i + 1;
    }
    assert(cs@.subrange(0, cs@.len() as int) =~= cs@);
    string_from_chars(out.as_slice())
}

/// Two names are similar when, reduced to letters and digits, both have at least four
/// characters and one contains the other.
pub open spec fn similar(candidate: Seq<char>, application: Seq<char>) -> bool {
    let c = normalized(candidate);
    let a = normalized(application);
    c.len() >= 4 && a.len() >= 4 && (c == a || seq_contains_sub(c, a) || seq_contains_sub(a, c))
}

pub fn names_are_similar(candidate: &str, application_name: &str) -> (r: bool)
    ensures
        r == similar(candidate@, application_name@),
{
    let c = str_chars(&normalize_name(candidate));
    let a = str_chars(&normalize_name(application_name));
    if c.len() < 4 || a.len() < 4 {
        return false;
    }
    let c_in_a = chars_contain(a.as_slice(), c.as_slice());
    let a_in_c = chars_contain(c.as_slice(), a.as_slice());
    proof {
        if c@ == a@ {
            assert(a@.subrange(0, c@.len() as int) =~= c@);
            assert(crate::text::occurs_at(a@, c@, 0));
        }
    }
    c_in_a || a_in_c
}

/// The file name of a path, or nothing where it has none.
pub open spec fn name_of(path: Seq<char>) -> Seq<char> {
    match file_name(path) {
        Some(n) => n,
        None => Seq::empty(),
    }
}

pub fn candidate_name(path: &str) -> (r: String)
    ensures
        r@ == name_of(path@),
{
    match crate::paths::file_name_of(path) {
        Some(n) => n,
        None => String::new(),
    }
}

/// `Path::parent(path) == Some(root)`: the path ends in an ordinary component and what
/// comes before it is `root`.
pub open spec fn top_level(path: Seq<char>, root: Seq<char>) -> bool {
    let pc = components(path);
    pc.len() > 0 && pc.last() != root_component() && pc.drop_last() == components(root)
}

pub fn is_top_level_path(path: &str, root: &str) -> (r: bool)
    ensures
        r == top_level(path@, root@),
{
    let pc = path_components(path);
    let rc = path_components(root);
    let n = pc.len();
    assert(vs(pc@).len() == pc@.len());
    assert(vs(rc@).len() == rc@.len());
    if n == 0 {
        return false;
    }
    let last = &pc[n - 1];
    assert(vs(pc@).last() == last@);
    if last.len() == 1 && last[0] == '/' {
        assert(last@ =~= root_component());
        return false;
    }
    proof {
        if last@ == root_component() {
            assert(last@[0] == '/');
        }
    }
    if rc.len() != n - 1 {
        return false;
    }
    let mut i: usize = 0;
    while i < rc.len()
        invariant
            vs(pc@) == components(path@),
            vs(rc@) == components(root@),
            rc@.len() + 1 == pc@.len(),
            i <= rc@.len(),
            forall|j: int| 0 <= j < i ==> vs(rc@)[j] == vs(pc@)[j],
        decreases rc@.len() - i,
    {
        assert(vs(rc@)[i as int] == rc@[i as int]@);
        assert(vs(pc@)[i as int] == pc@[i as int]@);
        if !crate::text::chars_eq(rc[i].as_slice(), pc[i].as_slice()) {
            assert(vs(pc@).drop_last()[i as int] == vs(pc@)[i as int]);
            return false;
        }
        i = i + 1;
    }
    assert(vs(pc@).drop_last() =~= vs(rc@));
    true
}

/// The words whose presence in a lower-cased file name marks a licence or a credential.
pub open spec fn sensitive_markers() -> Seq<Seq<char>> {
    seq![
        "licence"@,
        "license"@,
        "activation"@,
        "entitlement"@,
        "auth-token"@,
        "authtoken"@,
        "credential"@,
        "password"@,
        "secret"@,
        "token"@,
    ]
}

/// The file name, lower-cased, contains one of the sensitive markers.
pub open spec fn sensitive(path: Seq<char>) -> bool {
    exists|k: int|
        0 <= k < sensitive_markers().len() && seq_contains_sub(
            ascii_lower_seq(name_of(path)),
            #[trigger] sensitive_markers()[k],
        )
}

pub fn is_sensitive_path(path: &str) -> (r: bool)
    ensures
        r == sensitive(path@),
{
    let lowered = ascii_lowercase(&candidate_name(path));
    let name = str_chars(&lowered);
    let markers: [&str; 10] = [
        "licence",
        "license",
        "activation",
        "entitlement",
        "auth-token",
        "authtoken",
        "credential",
        "password",
        "secret",
        "token",
    ];
    assert(markers@.map_values(|m: &str| m@) =~= sensitive_markers());
    let mut i: usize = 0;
    while i < 10
        invariant
            i <= 10,
            markers@.len() == 10,
            markers@.map_values(|m: &str| m@) == sensitive_markers(),
            name@ == ascii_lower_seq(name_of(path@)),
            forall|k: int| 0 <= k < i ==> !seq_contains_sub(name@, #[trigger] sensitive_markers()[k]),
        decreases 10 - i,
    {
        let marker = str_chars(markers[i]);
        assert(marker@ == sensitive_markers()[i as int]);
        if chars_contain(name.as_slice(), marker.as_slice()) {
            return true;
        }
        i = i + 1;
    }
    false
}

/// The segments of a string between `.` separators, empty ones included (`str::split('.')`).
pub open spec fn dot_segments(s: Seq<char>) -> Seq<Seq<char>>
    decreases s.len(),
{
    if s.len() == 0 {
        seq![Seq::empty()]
    } else {
        let prev = dot_segments(s.drop_last());
        if s.last() == '.' {
            prev.push(Seq::empty())
        } else {
            prev.update(prev.len() - 1, prev.last().push(s.last()))
        }
    }
}

proof fn lemma_dot_segments_nonempty(s: Seq<char>)
    ensures
        dot_segments(s).len() >= 1,
    decreases s.len(),
{
    if s.len() > 0 {
        lemma_dot_segments_nonempty(s.drop_last());
    }
}

/// Splits a string at every `.`.
pub fn split_dots(cs: &[char]) -> (out: Vec<Vec<char>>)
    ensures
        vs(out@) == dot_segments(cs@),
{
    let mut out: Vec<Vec<char>> = Vec::new();
    let mut cur: Vec<char> = Vec::new();
    let mut i: usize = 0;
    assert(cs@.subrange(0, 0) =~= Seq::<char>::empty());
    assert(vs(out@).push(cur@) =~= seq![Seq::<char>::empty()]);
    while i < cs.len()
        invariant
            i <= cs@.len(),
            dot_segments(cs@.subrange(0, i as int)) == vs(out@).push(cur@),
        decreases cs@.len() - i,
    {
        let c = cs[i];
        let ghost prefix = cs@.subrange(0, i as int);
        let ghost next = cs@.subrange(0, i + 1);
        assert(next.drop_last() =~= prefix);
        assert(next.last() == c);
        if c == '.' {
            let ghost old_out = vs(out@);
            let ghost cv = cur@;
            out.push(cur);
            cur = Vec::new();
            assert(vs(out@) =~= old_out.push(cv));
            assert(dot_segments(next) =~= vs(out@).push(cur@));
        } else {
            cur.push(c);
            assert(dot_segments(next) =~= vs(out@).push(cur@));
        }
        i = i + 1;
    }
    assert(cs@.subrange(0, cs@.len() as int) =~= cs@);
    let ghost old_out = vs(out@);
    let ghost cv = cur@;
    out.push(cur);
    assert(vs(out@) =~= old_out.push(cv));
    out
}

/// A segment of a bundle identifier: not empty, of ASCII letters, digits and `-` only.
pub open spec fn identifier_segment(seg: Seq<char>) -> bool {
    seg.len() > 0 && forall|i: int| 0 <= i < seg.len() ==> is_ascii_alnum(#[trigger] seg[i]) || seg[i] == '-'
}

/// Reverse-DNS shape: at least two `.`-separated segments, each a valid segment.
pub open spec fn bundle_identifier_shape(value: Seq<char>) -> bool {
    let segs = dot_segments(value);
    segs.len() >= 2 && forall|k: int| 0 <= k < segs.len() ==> identifier_segment(#[trigger] segs[k])
}

fn segment_is_valid(seg: &Vec<char>) -> (r: bool)
    ensures
        r == identifier_segment(seg@),
{
    if seg.len() == 0 {
        return false;
    }
    let mut i: usize = 0;
    while i < seg.len()
        invariant
            i <= seg@.len(),
            forall|j: int| 0 <= j < i ==> is_ascii_alnum(#[trigger] seg@[j]) || seg@[j] == '-',
        decreases seg@.len() - i,
    {
        let c = seg[i];
        if !(('0' <= c && c <= '9') || ('a' <= c && c <= 'z') || ('A' <= c && c <= 'Z') || c == '-') {
            return false;
        }
        i = i + 1;
    }
    true
}

pub fn is_bundle_identifier(value: &str) -> (r: bool)
    ensures
        r == bundle_identifier_shape(value@),
{
    let cs = str_chars(value);
    let segs = split_dots(cs.as_slice());
    if segs.len() < 2 {
        return false;
    }
    let mut k: usize = 0;
    while k < segs.len()
        invariant
            k <= segs@.len(),
            vs(segs@) == dot_segments(value@),
            forall|j: int| 0 <= j < k ==> identifier_segment(#[trigger] vs(segs@)[j]),
        decreases segs@.len() - k,
    {
        if !segment_is_valid(&segs[k]) {
            assert(vs(segs@)[k as int] == segs@[k as int]@);
            return false;
        }
        assert(vs(segs@)[k as int] == segs@[k as int]@);
        k = k + 1;
    }
    true
}

/// The developer's name: the one the bundle declares, else the segment before the last of
/// the bundle identifier, else nothing.
pub open spec fn developer_of(
    developer_name: Option<Seq<char>>,
    bundle_identifier: Option<Seq<char>>,
) -> Seq<char> {
    match developer_name {
        Some(d) => d,
        None => match bundle_identifier {
            Some(b) => {
                let segs = dot_segments(b);
                if segs.len() >= 2 {
                    segs[segs.len() - 2]
                } else {
                    Seq::empty()
                }
            },
            None => Seq::empty(),
        },
    }
}

pub fn developer_name(metadata: &crate::platform::ApplicationMetadata) -> (r: String)
    ensures
        r@ == developer_of(
            crate::text::opt_view(metadata.developer_name),
            crate::text::opt_view(metadata.bundle_identifier),
        ),
{
    match &metadata.developer_name {
        Some(d) => d.clone(),
        None => match &metadata.bundle_identifier {
            Some(b) => {
                let cs = str_chars(b);
                let segs = split_dots(cs.as_slice());
                if segs.len() >= 2 {
                    let n = segs.len();
                    assert(vs(segs@)[n - 2] == segs@[n - 2]@);
                    string_from_chars(segs[n - 2].as_slice())
                } else {
                    String::new()
                }
            },
            None => String::new(),
        },
    }
}

/// A file name with a trailing `.plist`, or else `.savedState`, taken off.
pub open spec fn without_identity_suffix(name: Seq<char>) -> Seq<char> {
    if seq_ends_with(name, ".plist"@) {
        name.subrange(0, name.len() - ".plist"@.len())
    } else if seq_ends_with(name, ".savedState"@) {
        name.subrange(0, name.len() - ".savedState"@.len())
    } else {
        name
    }
}

/// The identities a directory entry named `name` can stand for: the name without its
/// suffix, that name behind `group.`, and that name without a leading `group.`.
pub open spec fn identity_names_of(name: Seq<char>) -> Seq<Seq<char>> {
    let base = without_identity_suffix(name);
    seq![
        base,
        "group."@ + base,
        if seq_starts_with(base, "group."@) {
            base.subrange("group."@.len() as int, base.len() as int)
        } else {
            base
        },
    ]
}

/// The character sequences of a list of strings.
pub open spec fn string_views(v: Seq<String>) -> Seq<Seq<char>> {
    v.map_values(|s: String| s@)
}

/// The character sequence of an optional string slice.
pub open spec fn opt_str_view(o: Option<&str>) -> Option<Seq<char>> {
    match o {
        Some(b) => Some(b@),
        None => None,
    }
}

/// The identity names of a component: none for the root or a parent reference.
pub open spec fn component_identity_names(c: Seq<char>) -> Seq<Seq<char>> {
    if c == root_component() || c == seq!['.', '.'] {
        Seq::empty()
    } else {
        identity_names_of(c)
    }
}

/// The identity names of the entry `path` relative to the data root `root`.
pub open spec fn identity_names_under(path: Seq<char>, root: Seq<char>) -> Seq<Seq<char>> {
    let pc = components(path);
    let rc = components(root);
    if path_starts_with(path, root) && pc.len() > rc.len() {
        component_identity_names(pc.last())
    } else {
        Seq::empty()
    }
}

pub fn identity_names(path: &str, root: &str) -> (r: Vec<String>)
    ensures
        string_views(r@) == identity_names_under(path@, root@),
{
    let pc = path_components(path);
    let rc = path_components(root);
    if !starts_with(path, root) || pc.len() <= rc.len() {
        let r: Vec<String> = Vec::new();
        assert(string_views(r@) =~= identity_names_under(path@, root@));
        return r;
    }
    let n = pc.len();
    assert(vs(pc@).last() == pc@[n - 1]@);
    identity_names_of_component(&pc[n - 1])
}

fn identity_names_of_component(c: &Vec<char>) -> (r: Vec<String>)
    ensures
        string_views(r@) == component_identity_names(c@),
{
    if (c.len() == 1 && c[0] == '/') || (c.len() == 2 && c[0] == '.' && c[1] == '.') {
        proof {
            if c@.len() == 1 {
                assert(c@ =~= root_component());
            } else {
                assert(c@ =~= seq!['.', '.']);
            }
        }
        let r: Vec<String> = Vec::new();
        assert(string_views(r@) =~= component_identity_names(c@));
        return r;
    }
    proof {
        if c@ == root_component() {
            assert(c@[0] == '/');
        }
        if c@ == seq!['.', '.'] {
            assert(c@[0] == '.' && c@[1] == '.');
        }
    }
    let plist = str_chars(".plist");
    let saved = str_chars(".savedState");
    let base: Vec<char> = if chars_end_with(c.as_slice(), plist.as_slice()) {
        chars_range(c.as_slice(), 0, c.len() - plist.len())
    } else if chars_end_with(c.as_slice(), saved.as_slice()) {
        chars_range(c.as_slice(), 0, c.len() - saved.len())
    } else {
        chars_range(c.as_slice(), 0, c.len())
    };
    assert(c@.subrange(0, c@.len() as int) =~= c@);
    assert(base@ == without_identity_suffix(c@));
    let group = str_chars("group.");
    let mut grouped: Vec<char> = group.clone();
    let mut i: usize = 0;
    while i < base.len()
        invariant
            i <= base@.len(),
            grouped@ == group@ + base@.subrange(0, i as int),
        decreases base@.len() - i,
    {
        grouped.push(base[i]);
        i = i + 1;
        assert(grouped@ =~= group@ + base@.subrange(0, i as int));
    }
    assert(base@.subrange(0, base@.len() as int) =~= base@);
    let ungrouped: Vec<char> = if chars_start_with(base.as_slice(), group.as_slice()) {
        chars_range(base.as_slice(), group.len(), base.len())
    } else {
        chars_range(base.as_slice(), 0, base.len())
    };
    let mut r: Vec<String> = Vec::new();
    r.push(string_from_chars(base.as_slice()));
    r.push(string_from_chars(grouped.as_slice()));
    r.push(string_from_chars(ungrouped.as_slice()));
    assert(string_views(r@) =~= identity_names_of(c@));
    r
}

/// The names match a bundle identifier: the given one, or, where none is given, any
/// string of bundle-identifier shape.
pub open spec fn names_match(names: Seq<Seq<char>>, bundle_identifier: Option<Seq<char>>) -> bool {
    match bundle_identifier {
        Some(b) => names.contains(b),
        None => exists|k: int| 0 <= k < names.len() && bundle_identifier_shape(#[trigger] names[k]),
    }
}

/// Some ancestor of `path` below `root` (the path itself included, the root excluded)
/// carries a matching identity name: the ancestor with `j + 1` components is named by the
/// `j`-th component of the path.
pub open spec fn exact_identity(
    path: Seq<char>,
    root: Seq<char>,
    bundle_identifier: Option<Seq<char>>,
) -> bool {
    let pc = components(path);
    let rc = components(root);
    path_starts_with(path, root) && exists|j: int|
        rc.len() <= j < pc.len() && names_match(
            component_identity_names(#[trigger] pc[j]),
            bundle_identifier,
        )
}

fn names_match_exec(names: &Vec<String>, bundle_identifier: Option<&str>) -> (r: bool)
    ensures
        r == names_match(string_views(names@), opt_str_view(bundle_identifier)),
{
    let ghost views = string_views(names@);
    let mut i: usize = 0;
    while i < names.len()
        invariant
            i <= names@.len(),
            views == string_views(names@),
            forall|j: int| 0 <= j < i ==> match bundle_identifier {
                Some(b) => views[j] != b@,
                None => !bundle_identifier_shape(#[trigger] views[j]),
            },
        decreases names@.len() - i,
    {
        assert(views[i as int] == names@[i as int]@);
        let hit = match bundle_identifier {
            Some(b) => crate::text::str_eq(names[i].as_str(), b),
            None => is_bundle_identifier(names[i].as_str()),
        };
        if hit {
            return true;
        }
        i = i + 1;
    }
    proof {
        match bundle_identifier {
            Some(b) => {
                if views.contains(b@) {
                    let j = choose|j: int| 0 <= j < views.len() && views[j] == b@;
                    assert(views[j] != b@);
                }
            },
            None => {},
        }
    }
    false
}

pub fn is_exact_identity_candidate(path: &str, root: &str, bundle_identifier: Option<&str>) -> (r: bool)
    ensures
        r == exact_identity(path@, root@, opt_str_view(bundle_identifier)),
{
    let ghost b = opt_str_view(bundle_identifier);
    if !starts_with(path, root) {
        return false;
    }
    let pc = path_components(path);
    let rc = path_components(root);
    assert(vs(pc@).len() == pc@.len());
    assert(vs(rc@).len() == rc@.len());
    let mut k: usize = rc.len();
    while k < pc.len()
        invariant
            vs(pc@) == components(path@),
            vs(rc@) == components(root@),
            path_starts_with(path@, root@),
            b == opt_str_view(bundle_identifier),
            rc@.len() <= k <= pc@.len(),
            forall|j: int| rc@.len() <= j < k ==> !names_match(
                component_identity_names(#[trigger] components(path@)[j]),
                b,
            ),
        decreases pc@.len() - k,
    {
        assert(vs(pc@)[k as int] == pc@[k as int]@);
        let names = identity_names_of_component(&pc[k]);
        if names_match_exec(&names, bundle_identifier) {
            assert(names_match(component_identity_names(components(path@)[k as int]), b));
            return true;
        }
        k = k + 1;
    }
    false
}

/// The last component of `path`, below `root`, is named after `name` once both are
/// reduced to letters and digits, and that reduction of `name` is not empty.
pub open spec fn named_after(path: Seq<char>, root: Seq<char>, name: Seq<char>) -> bool {
    let target = normalized(name);
    let pc = components(path);
    &&& target.len() > 0
    &&& path_starts_with(path, root)
    &&& pc.len() > components(root).len()
    &&& pc.last() != root_component()
    &&& pc.last() != seq!['.', '.']
    &&& normalized(pc.last()) == target
}

pub fn has_ancestor_name(path: &str, root: &str, name: &str) -> (r: bool)
    ensures
        r == named_after(path@, root@, name@),
{
    let target = str_chars(&normalize_name(name));
    if target.len() == 0 {
        return false;
    }
    if !starts_with(path, root) {
        return false;
    }
    let pc = path_components(path);
    let rc = path_components(root);
    if pc.len() <= rc.len() {
        return false;
    }
    let n = pc.len();
    let last = &pc[n - 1];
    assert(vs(pc@).last() == last@);
    if (last.len() == 1 && last[0] == '/') || (last.len() == 2 && last[0] == '.' && last[1] == '.') {
        proof {
            if last@.len() == 1 {
                assert(last@ =~= root_component());
            } else {
                assert(last@ =~= seq!['.', '.']);
            }
        }
        return false;
    }
    proof {
        if last@ == root_component() {
            assert(last@[0] == '/');
        }
        if last@ == seq!['.', '.'] {
            assert(last@[0] == '.' && last@[1] == '.');
        }
    }
    let last_name = string_from_chars(last.as_slice());
    let got = str_chars(&normalize_name(&last_name));
    crate::text::chars_eq(got.as_slice(), target.as_slice())
}

} // verus!
