//! Paths as `/`-separated text: components, final segment, parent, join and
//! prefix test.
//!
//! A path is read as a sequence of components. A leading `/` is the root
//! component. Empty segments are no components, and a segment `.` is one only
//! at the very beginning of a path without root. Each component is a span of
//! the path's characters.

use vstd::prelude::*;
use crate::text::{chars_of, find_from, lemma_find_from, opt_text, scan_to, slice_of};

verus! {

/// The text `.`.
pub open spec fn is_dot(s: Seq<char>) -> bool {
    s.len() == 1 && s[0] == '.'
}

/// The text `..`.
pub open spec fn is_dot_dot(s: Seq<char>) -> bool {
    s.len() == 2 && s[0] == '.' && s[1] == '.'
}

/// The text `/`.
pub open spec fn is_root(s: Seq<char>) -> bool {
    s.len() == 1 && s[0] == '/'
}

/// The spans of the components of `p` that begin at or after `i`, where `i` is
/// the beginning of a segment.
pub open spec fn spans_from(p: Seq<char>, i: int) -> Seq<(int, int)>
    decreases p.len() - i,
{
    if i < 0 || i >= p.len() {
        Seq::empty()
    } else {
        let e = find_from(p, '/', i);
        proof {
            lemma_find_from(p, '/', i);
        }
        let rest = if e >= p.len() {
            Seq::empty()
        } else {
            spans_from(p, e + 1)
        };
        if e == i || (i > 0 && is_dot(p.subrange(i, e))) {
            rest
        } else {
            seq![(i, e)] + rest
        }
    }
}

/// The spans of the components of `p`, each from its first character up to the
/// one after its last.
pub open spec fn spans(p: Seq<char>) -> Seq<(int, int)> {
    if p.len() > 0 && p[0] == '/' {
        seq![(0int, 1int)] + spans_from(p, 1)
    } else {
        spans_from(p, 0)
    }
}

/// The text of one span of `p`.
pub open spec fn span_text(p: Seq<char>, span: (int, int)) -> Seq<char> {
    p.subrange(span.0, span.1)
}

/// The components of `p` as texts.
pub open spec fn components(p: Seq<char>) -> Seq<Seq<char>> {
    spans(p).map_values(|span: (int, int)| span_text(p, span))
}

/// The final segment of `p`: its last component, unless that is the root, `.`
/// or `..`, or there is none.
pub open spec fn file_name_of(p: Seq<char>) -> Option<Seq<char>> {
    let cs = components(p);
    if cs.len() == 0 || is_root(cs.last()) || is_dot(cs.last()) || is_dot_dot(cs.last()) {
        None
    } else {
        Some(cs.last())
    }
}

/// The path up to the end of the last component but one: empty where there is
/// one component only, and none for the root and for the empty path.
pub open spec fn parent_of(p: Seq<char>) -> Option<Seq<char>> {
    let sp = spans(p);
    if sp.len() == 0 || (sp.len() == 1 && is_root(span_text(p, sp[0]))) {
        None
    } else if sp.len() == 1 {
        Some(Seq::empty())
    } else {
        Some(p.subrange(0, sp[sp.len() - 2].1))
    }
}

/// `name` put behind `base`: `name` alone where it begins at the root, else
/// `base`, a `/` unless `base` is empty or ends in one, and `name`.
pub open spec fn join_of(base: Seq<char>, name: Seq<char>) -> Seq<char> {
    if name.len() > 0 && name[0] == '/' {
        name
    } else if base.len() > 0 && base.last() != '/' {
        base + seq!['/'] + name
    } else {
        base + name
    }
}

/// The path named `name` beside `root`: in the parent of `root`, or in `root`
/// itself where it has no parent.
pub open spec fn sibling_of(root: Seq<char>, name: Seq<char>) -> Seq<char> {
    match parent_of(root) {
        Some(dir) => join_of(dir, name),
        None => join_of(root, name),
    }
}

/// Whether the components of `base` are the first components of `p`.
pub open spec fn path_starts_with(p: Seq<char>, base: Seq<char>) -> bool {
    let a = components(p);
    let b = components(base);
    b.len() <= a.len() && a.subrange(0, b.len() as int) == b
}

/// Whether `name` is one plain segment: not empty, without separator, and
/// neither `.` nor `..`.
pub open spec fn is_segment(name: Seq<char>) -> bool {
    &&& name.len() > 0
    &&& forall|i: int| 0 <= i < name.len() ==> name[i] != '/'
    &&& !is_dot(name)
    &&& !is_dot_dot(name)
}

/// In a path that ends in the plain segment `name`, the spans from the
/// beginning of any segment on end with the span of `name`.
pub proof fn lemma_spans_end_with_segment(prefix: Seq<char>, name: Seq<char>, i: int)
    requires
        is_segment(name),
        prefix.len() == 0 || prefix.last() == '/',
        0 <= i <= prefix.len(),
        i == 0 || (prefix + name)[i - 1] == '/',
    ensures
        spans_from(prefix + name, i).len() > 0,
        spans_from(prefix + name, i).last() == (
            prefix.len() as int,
            (prefix.len() + name.len()) as int,
        ),
    decreases prefix.len() - i,
{
    let p = prefix + name;
    let e = find_from(p, '/', i);
    lemma_find_from(p, '/', i);
    if i == prefix.len() {
        assert forall|j: int| i <= j < p.len() implies p[j] != '/' by {
            assert(p[j] == name[j - prefix.len()]);
        }
        assert(e == p.len());
        assert(p.subrange(i, e) =~= name);
    } else {
        assert(p[prefix.len() - 1] == prefix.last());
        assert(e <= prefix.len() - 1);
        lemma_spans_end_with_segment(prefix, name, e + 1);
        let rest = spans_from(p, e + 1);
        if !(e == i || (i > 0 && is_dot(p.subrange(i, e)))) {
            assert((seq![(i, e)] + rest).last() == rest.last());
        }
    }
}

/// The final segment of a path that is joined from any base and a plain
/// segment is that segment.
pub proof fn lemma_joined_segment_is_final(base: Seq<char>, name: Seq<char>)
    requires
        is_segment(name),
    ensures
        file_name_of(join_of(base, name)) == Some(name),
{
    let prefix = if base.len() > 0 && base.last() != '/' {
        base + seq!['/']
    } else {
        base
    };
    let p = prefix + name;
    assert(join_of(base, name) =~= p);
    let start = if p[0] == '/' {
        1int
    } else {
        0int
    };
    if prefix.len() > 0 {
        assert(p[0] == prefix[0]);
    } else {
        assert(p[0] == name[0]);
    }
    lemma_spans_end_with_segment(prefix, name, start);
    let rest = spans_from(p, start);
    if p[0] == '/' {
        assert((seq![(0int, 1int)] + rest).last() == rest.last());
    }
    assert(spans(p).last() == (prefix.len() as int, p.len() as int));
    assert(components(p).last() == p.subrange(prefix.len() as int, p.len() as int));
    assert(p.subrange(prefix.len() as int, p.len() as int) =~= name);
}

/// The path that a plain segment names beside a root ends in that segment:
/// a worktree that is created under a name is found under that name.
pub proof fn lemma_sibling_is_named(root: Seq<char>, name: Seq<char>)
    requires
        is_segment(name),
    ensures
        file_name_of(sibling_of(root, name)) == Some(name),
{
    match parent_of(root) {
        Some(dir) => lemma_joined_segment_is_final(dir, name),
        None => lemma_joined_segment_is_final(root, name),
    }
}

/// Spans held as machine integers, read as mathematical ones.
pub open spec fn span_ints(v: Seq<(usize, usize)>) -> Seq<(int, int)> {
    v.map_values(|s: (usize, usize)| (s.0 as int, s.1 as int))
}

/// Finds the spans of the components of a path.
fn path_spans(cs: &Vec<char>) -> (r: Vec<(usize, usize)>)
    ensures
        span_ints(r@) == spans(cs@),
        forall|k: int| 0 <= k < r.len() ==> (#[trigger] r[k]).0 < r[k].1 <= cs.len(),
{
    let mut out: Vec<(usize, usize)> = Vec::new();
    let mut i: usize = 0;
    if cs.len() > 0 && cs[0] == '/' {
        out.push((0, 1));
        i = 1;
    }
    assert(span_ints(out@) + spans_from(cs@, i as int) =~= spans(cs@));
    while i < cs.len()
        invariant
            i <= cs.len(),
            span_ints(out@) + spans_from(cs@, i as int) == spans(cs@),
            forall|k: int| 0 <= k < out.len() ==> (#[trigger] out[k]).0 < out[k].1 <= cs.len(),
        decreases cs.len() - i,
    {
        let e = scan_to(cs, '/', i);
        let ghost before = out@;
        let dot = e == i + 1 && cs[i] == '.';
        proof {
            let seg = cs@.subrange(i as int, e as int);
            assert(dot == is_dot(seg)) by {
                if e == i + 1 {
                    assert(seg[0] == cs@[i as int]);
                }
            }
        }
        if e == i || (i > 0 && dot) {
        } else {
            out.push((i, e));
            assert(span_ints(out@) =~= span_ints(before) + seq![(i as int, e as int)]);
        }
        i = if e < cs.len() {
            e + 1
        } else {
            e
        };
    }
    assert(spans_from(cs@, i as int) =~= Seq::<(int, int)>::empty());
    out
}

/// Whether the span `a` of `x` and the span `b` of `y` hold the same text.
fn same_span(x: &Vec<char>, a: (usize, usize), y: &Vec<char>, b: (usize, usize)) -> (r: bool)
    requires
        a.0 <= a.1 <= x.len(),
        b.0 <= b.1 <= y.len(),
    ensures
        r == (x@.subrange(a.0 as int, a.1 as int) == y@.subrange(b.0 as int, b.1 as int)),
{
    let ghost s = x@.subrange(a.0 as int, a.1 as int);
    let ghost t = y@.subrange(b.0 as int, b.1 as int);
    if a.1 - a.0 != b.1 - b.0 {
        assert(s.len() != t.len());
        return false;
    }
    let n = a.1 - a.0;
    let mut k: usize = 0;
    while k < n
        invariant
            k <= n,
            n == a.1 - a.0,
            n == b.1 - b.0,
            a.0 <= a.1 <= x.len(),
            b.0 <= b.1 <= y.len(),
            s == x@.subrange(a.0 as int, a.1 as int),
            t == y@.subrange(b.0 as int, b.1 as int),
            forall|j: int| 0 <= j < k ==> s[j] == t[j],
        decreases n - k,
    {
        if x[a.0 + k] != y[b.0 + k] {
            assert(s[k as int] != t[k as int]);
            return false;
        }
        k += 1;
    }
    assert(s =~= t);
    true
}

/// The final segment of a path, if it has one.
pub fn file_name(path: &str) -> (r: Option<String>)
    ensures
        opt_text(r) == file_name_of(path@),
{
    let cs = chars_of(path);
    let sp = path_spans(&cs);
    if sp.len() == 0 {
        return None;
    }
    let last = sp[sp.len() - 1];
    proof {
        assert(span_ints(sp@).last() == (last.0 as int, last.1 as int));
        assert(components(cs@).last() == cs@.subrange(last.0 as int, last.1 as int));
    }
    let n = last.1 - last.0;
    let first = cs[last.0];
    let special = if n == 1 {
        first == '/' || first == '.'
    } else if n == 2 {
        first == '.' && cs[last.0 + 1] == '.'
    } else {
        false
    };
    proof {
        let t = cs@.subrange(last.0 as int, last.1 as int);
        assert(t[0] == first);
        if n == 2 {
            assert(t[1] == cs@[last.0 + 1]);
        }
        assert(special == (is_root(t) || is_dot(t) || is_dot_dot(t)));
    }
    if special {
        None
    } else {
        Some(slice_of(path, last.0, last.1))
    }
}

/// The parent of a path, if it has one.
pub fn parent(path: &str) -> (r: Option<String>)
    ensures
        opt_text(r) == parent_of(path@),
{
    let cs = chars_of(path);
    let sp = path_spans(&cs);
    if sp.len() == 0 {
        return None;
    }
    proof {
        assert(span_ints(sp@)[0] == (sp[0].0 as int, sp[0].1 as int));
        let t = cs@.subrange(sp[0].0 as int, sp[0].1 as int);
        assert(t[0] == cs@[sp[0].0 as int]);
    }
    if sp.len() == 1 {
        let only = sp[0];
        if only.1 - only.0 == 1 && cs[only.0] == '/' {
            return None;
        }
        return Some(String::new());
    }
    let prev = sp[sp.len() - 2];
    proof {
        assert(span_ints(sp@)[sp.len() - 2] == (prev.0 as int, prev.1 as int));
    }
    Some(slice_of(path, 0, prev.1))
}

/// `name` put behind `base`.
pub fn join(base: &str, name: &str) -> (r: String)
    ensures
        r@ == join_of(base@, name@),
{
    let b = chars_of(base);
    let n = chars_of(name);
    if n.len() > 0 && n[0] == '/' {
        return name.to_string();
    }
    let mut out = base.to_string();
    if b.len() > 0 && b[b.len() - 1] != '/' {
        proof {
            reveal_strlit("/");
            assert("/"@ =~= seq!['/']);
        }
        out.append("/");
    }
    out.append(name);
    out
}

/// The path named `name` beside `root`.
pub fn sibling(root: &str, name: &str) -> (r: String)
    ensures
        r@ == sibling_of(root@, name@),
{
    match parent(root) {
        Some(dir) => join(dir.as_str(), name),
        None => join(root, name),
    }
}

/// Whether `path` lies at or below `base`, component by component.
pub fn starts_with(path: &str, base: &str) -> (r: bool)
    ensures
        r == path_starts_with(path@, base@),
{
    let p = chars_of(path);
    let b = chars_of(base);
    let ps = path_spans(&p);
    let bs = path_spans(&b);
    let ghost a = components(p@);
    let ghost c = components(b@);
    if bs.len() > ps.len() {
        return false;
    }
    let mut k: usize = 0;
    while k < bs.len()
        invariant
            k <= bs.len() <= ps.len(),
            p@ == path@,
            b@ == base@,
            a == components(p@),
            c == components(b@),
            span_ints(ps@) == spans(p@),
            span_ints(bs@) == spans(b@),
            forall|j: int| 0 <= j < ps.len() ==> (#[trigger] ps[j]).0 < ps[j].1 <= p.len(),
            forall|j: int| 0 <= j < bs.len() ==> (#[trigger] bs[j]).0 < bs[j].1 <= b.len(),
            forall|j: int| 0 <= j < k ==> a[j] == c[j],
        decreases bs.len() - k,
    {
        proof {
            assert(span_ints(ps@)[k as int] == (ps[k as int].0 as int, ps[k as int].1 as int));
            assert(span_ints(bs@)[k as int] == (bs[k as int].0 as int, bs[k as int].1 as int));
        }
        proof {
            assert(a[k as int] == p@.subrange(ps[k as int].0 as int, ps[k as int].1 as int));
            assert(c[k as int] == b@.subrange(bs[k as int].0 as int, bs[k as int].1 as int));
        }
        if !same_span(&p, ps[k], &b, bs[k]) {
            assert(a.subrange(0, c.len() as int)[k as int] == a[k as int]);
            return false;
        }
        k += 1;
    }
    assert(a.subrange(0, c.len() as int) =~= c);
    true
}

} // verus!
