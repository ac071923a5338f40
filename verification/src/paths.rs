use vstd::prelude::*;

use crate::text::chars_of;

verus! {

/// A component of a Unix path, in the order in which `Path` sorts them.
pub enum PathPart {
    Root,
    Current,
    Parent,
    Name(Seq<char>),
}

/// A component of a Unix path.
pub enum Component {
    RootDir,
    CurDir,
    ParentDir,
    Normal(Vec<char>),
}

impl View for Component {
    type V = PathPart;

    open spec fn view(&self) -> PathPart {
        match self {
            Component::RootDir => PathPart::Root,
            Component::CurDir => PathPart::Current,
            Component::ParentDir => PathPart::Parent,
            Component::Normal(name) => PathPart::Name(name@),
        }
    }
}

/// The components that a vector of them stands for.
pub open spec fn parts_view(v: Seq<Component>) -> Seq<PathPart> {
    v.map_values(|c: Component| c@)
}

/// The index of the first `/` in `s`, or its length when it has none.
pub open spec fn first_slash(s: Seq<char>) -> int
    decreases s.len(),
{
    if s.len() == 0 {
        0
    } else if s[0] == '/' {
        0
    } else {
        1 + first_slash(s.drop_first())
    }
}

pub proof fn lemma_first_slash(s: Seq<char>)
    ensures
        0 <= first_slash(s) <= s.len(),
        first_slash(s) < s.len() ==> s[first_slash(s)] == '/',
        forall|k: int| 0 <= k < first_slash(s) ==> s[k] != '/',
    decreases s.len(),
{
    if s.len() > 0 && s[0] != '/' {
        lemma_first_slash(s.drop_first());
        assert forall|k: int| 0 <= k < first_slash(s) implies s[k] != '/' by {
            if k > 0 {
                assert(s[k] == s.drop_first()[k - 1]);
            }
        }
    }
}

/// An index at which `s` has its first `/`, or its length when it has none,
/// is where `first_slash` says.
pub proof fn lemma_first_slash_at(s: Seq<char>, j: int)
    requires
        0 <= j <= s.len(),
        j < s.len() ==> s[j] == '/',
        forall|k: int| 0 <= k < j ==> s[k] != '/',
    ensures
        first_slash(s) == j,
{
    lemma_first_slash(s);
    let r = first_slash(s);
    if j < r {
        assert(s[j] != '/');
    } else if r < j {
        assert(s[r] == '/');
    }
}

/// The component a segment between separators gives: none for an empty
/// segment or `.`, the parent for `..`, else a name.
pub open spec fn segment_part(seg: Seq<char>) -> Seq<PathPart> {
    if seg.len() == 0 || seg == seq!['.'] {
        Seq::empty()
    } else if seg == seq!['.', '.'] {
        seq![PathPart::Parent]
    } else {
        seq![PathPart::Name(seg)]
    }
}

/// The components of the segments of `s`, separated by `/`.
pub open spec fn body_parts(s: Seq<char>) -> Seq<PathPart>
    decreases s.len(),
{
    if s.len() == 0 {
        Seq::empty()
    } else {
        let k = first_slash(s);
        proof {
            lemma_first_slash(s);
        }
        if k < s.len() {
            segment_part(s.take(k)) + body_parts(s.skip(k + 1))
        } else {
            segment_part(s)
        }
    }
}

/// The components of a Unix path as `Path::components` yields them: a root
/// for a leading `/`, a current directory for a leading `.` segment of a
/// relative path, then the other segments but empty ones and `.`.
pub open spec fn path_components(s: Seq<char>) -> Seq<PathPart> {
    if s.len() > 0 && s[0] == '/' {
        seq![PathPart::Root] + body_parts(s.drop_first())
    } else if s.len() > 0 && s[0] == '.' && (s.len() == 1 || s[1] == '/') {
        seq![PathPart::Current] + body_parts(s.drop_first())
    } else {
        body_parts(s)
    }
}

fn segment_component(seg: &Vec<char>, out: &mut Vec<Component>)
    ensures
        parts_view(final(out)@) == parts_view(old(out)@) + segment_part(seg@),
{
    let ghost before = parts_view(out@);
    if seg.len() == 0 {
        assert(parts_view(out@) =~= before + segment_part(seg@));
        return;
    }
    if seg.len() == 1 && seg[0] == '.' {
        assert(seg@ =~= seq!['.']);
        assert(parts_view(out@) =~= before + segment_part(seg@));
        return;
    }
    if seg.len() == 2 && seg[0] == '.' && seg[1] == '.' {
        assert(seg@ =~= seq!['.', '.']);
        out.push(Component::ParentDir);
        assert(parts_view(out@) =~= before + segment_part(seg@));
        return;
    }
    assert(seg@ != seq!['.']) by {
        if seg@.len() == 1 {
            assert(seg@[0] != seq!['.'][0]);
        }
    }
    assert(seg@ != seq!['.', '.']) by {
        if seg@.len() == 2 {
            assert(seg@[0] != '.' || seg@[1] != '.');
        }
    }
    let mut name: Vec<char> = Vec::new();
    let mut i: usize = 0;
    while i < seg.len()
        invariant
            i <= seg@.len(),
            name@ == seg@.take(i as int),
        decreases seg@.len() - i,
    {
        name.push(seg[i]);
        assert(seg@.take(i as int).push(seg@[i as int]) =~= seg@.take(i + 1));
        i = i + 1;
    }
    assert(seg@.take(seg@.len() as int) =~= seg@);
    out.push(Component::Normal(name));
    assert(parts_view(out@) =~= before + segment_part(seg@));
}

/// The components of a path.
pub fn components(path: &str) -> (r: Vec<Component>)
    ensures
        parts_view(r@) == path_components(path@),
{
    let chars = chars_of(path);
    let n = chars.len();
    let mut out: Vec<Component> = Vec::new();
    let mut start: usize = 0;
    if n > 0 && chars[0] == '/' {
        out.push(Component::RootDir);
        start = 1;
    } else if n > 0 && chars[0] == '.' && (n == 1 || chars[1] == '/') {
        out.push(Component::CurDir);
        start = 1;
    }
    let ghost head = parts_view(out@);
    let ghost body = chars@.subrange(start as int, n as int);
    proof {
        assert(path_components(path@) == head + body_parts(body)) by {
            if start == 1 {
                assert(body =~= chars@.drop_first());
            } else {
                assert(body =~= chars@);
            }
        }
    }
    let mut seg: Vec<char> = Vec::new();
    let mut seg_start: usize = start;
    let mut i: usize = start;
    while i < n
        invariant
            n == chars@.len(),
            chars@ == path@,
            start <= seg_start <= i <= n,
            body == chars@.subrange(start as int, n as int),
            seg@ == chars@.subrange(seg_start as int, i as int),
            forall|k: int| seg_start <= k < i ==> chars@[k] != '/',
            head + body_parts(body) == parts_view(out@) + body_parts(
                chars@.subrange(seg_start as int, n as int),
            ),
        decreases n - i,
    {
        let c = chars[i];
        if c == '/' {
            proof {
                let rest = chars@.subrange(seg_start as int, n as int);
                lemma_first_slash_at(rest, i - seg_start);
                assert(rest.take(i - seg_start) =~= seg@);
                assert(rest.skip(i - seg_start + 1) =~= chars@.subrange(i + 1, n as int));
            }
            let ghost before = parts_view(out@);
            segment_component(&seg, &mut out);
            proof {
                assert(before + body_parts(chars@.subrange(seg_start as int, n as int)) =~= parts_view(
                    out@,
                ) + body_parts(chars@.subrange(i + 1, n as int)));
            }
            seg = Vec::new();
            seg_start = i + 1;
        } else {
            seg.push(c);
            assert(chars@.subrange(seg_start as int, i as int).push(c) =~= chars@.subrange(
                seg_start as int,
                i + 1,
            ));
        }
        i = i + 1;
    }
    proof {
        let rest = chars@.subrange(seg_start as int, n as int);
        assert(rest =~= seg@);
        if rest.len() > 0 {
            lemma_first_slash_at(rest, rest.len() as int);
        }
        assert(body_parts(rest) == segment_part(seg@));
    }
    let ghost before = parts_view(out@);
    segment_component(&seg, &mut out);
    proof {
        assert(head + body_parts(body) =~= parts_view(out@));
    }
    out
}

/// Lexicographic comparison of character sequences by code point, a proper
/// prefix first; -1, 0 or 1. For UTF-8 text this is the byte order in which
/// `OsStr` compares names.
pub open spec fn chars_order(a: Seq<char>, b: Seq<char>) -> int
    decreases a.len(),
{
    if a.len() == 0 {
        if b.len() == 0 {
            0
        } else {
            -1
        }
    } else if b.len() == 0 {
        1
    } else if a[0] < b[0] {
        -1
    } else if a[0] > b[0] {
        1
    } else {
        chars_order(a.drop_first(), b.drop_first())
    }
}

/// The place of a component kind in the order of `Component`.
pub open spec fn part_rank(p: PathPart) -> int {
    match p {
        PathPart::Root => 1,
        PathPart::Current => 2,
        PathPart::Parent => 3,
        PathPart::Name(_) => 4,
    }
}

/// Comparison of components: by kind, then names by their characters.
pub open spec fn part_order(p: PathPart, q: PathPart) -> int {
    if part_rank(p) < part_rank(q) {
        -1
    } else if part_rank(p) > part_rank(q) {
        1
    } else {
        match (p, q) {
            (PathPart::Name(a), PathPart::Name(b)) => chars_order(a, b),
            _ => 0,
        }
    }
}

/// Lexicographic comparison of component sequences, a proper prefix first.
pub open spec fn parts_order(a: Seq<PathPart>, b: Seq<PathPart>) -> int
    decreases a.len(),
{
    if a.len() == 0 {
        if b.len() == 0 {
            0
        } else {
            -1
        }
    } else if b.len() == 0 {
        1
    } else if part_order(a[0], b[0]) != 0 {
        part_order(a[0], b[0])
    } else {
        parts_order(a.drop_first(), b.drop_first())
    }
}

/// How `Path` orders two Unix paths: by their components.
pub open spec fn path_order(a: Seq<char>, b: Seq<char>) -> int {
    parts_order(path_components(a), path_components(b))
}

pub proof fn lemma_chars_order(a: Seq<char>, b: Seq<char>)
    ensures
        -1 <= chars_order(a, b) <= 1,
        chars_order(a, b) == -chars_order(b, a),
        chars_order(a, b) == 0 <==> a == b,
    decreases a.len(),
{
    if a.len() > 0 && b.len() > 0 {
        lemma_chars_order(a.drop_first(), b.drop_first());
        if a[0] == b[0] && a.drop_first() == b.drop_first() {
            assert(a =~= b) by {
                assert forall|i: int| 0 <= i < a.len() implies a[i] == b[i] by {
                    if i > 0 {
                        assert(a[i] == a.drop_first()[i - 1]);
                        assert(b[i] == b.drop_first()[i - 1]);
                    }
                }
            }
        }
        if a == b {
            assert(a.drop_first() == b.drop_first());
        }
    } else if a.len() == 0 && b.len() > 0 {
        assert(a != b);
    } else if a.len() > 0 && b.len() == 0 {
        assert(a != b);
    } else {
        assert(a =~= b);
    }
}

pub proof fn lemma_chars_order_trans(a: Seq<char>, b: Seq<char>, c: Seq<char>)
    requires
        chars_order(a, b) < 0,
        chars_order(b, c) < 0,
    ensures
        chars_order(a, c) < 0,
    decreases a.len(),
{
    if a.len() > 0 && b.len() > 0 && c.len() > 0 {
        if a[0] == b[0] && b[0] == c[0] {
            lemma_chars_order_trans(a.drop_first(), b.drop_first(), c.drop_first());
        }
    }
}

pub proof fn lemma_part_order(p: PathPart, q: PathPart)
    ensures
        -1 <= part_order(p, q) <= 1,
        part_order(p, q) == -part_order(q, p),
        part_order(p, q) == 0 <==> p == q,
{
    match (p, q) {
        (PathPart::Name(a), PathPart::Name(b)) => {
            lemma_chars_order(a, b);
        },
        _ => {},
    }
}

pub proof fn lemma_part_order_trans(p: PathPart, q: PathPart, r: PathPart)
    requires
        part_order(p, q) < 0,
        part_order(q, r) < 0,
    ensures
        part_order(p, r) < 0,
{
    match (p, q, r) {
        (PathPart::Name(a), PathPart::Name(b), PathPart::Name(c)) => {
            lemma_chars_order_trans(a, b, c);
        },
        _ => {},
    }
}

pub proof fn lemma_parts_order(a: Seq<PathPart>, b: Seq<PathPart>)
    ensures
        -1 <= parts_order(a, b) <= 1,
        parts_order(a, b) == -parts_order(b, a),
        parts_order(a, b) == 0 <==> a == b,
    decreases a.len(),
{
    if a.len() > 0 && b.len() > 0 {
        lemma_part_order(a[0], b[0]);
        lemma_parts_order(a.drop_first(), b.drop_first());
        if a[0] == b[0] && a.drop_first() == b.drop_first() {
            assert(a =~= b) by {
                assert forall|i: int| 0 <= i < a.len() implies a[i] == b[i] by {
                    if i > 0 {
                        assert(a[i] == a.drop_first()[i - 1]);
                        assert(b[i] == b.drop_first()[i - 1]);
                    }
                }
            }
        }
        if a == b {
            assert(a.drop_first() == b.drop_first());
        }
    } else if a.len() == 0 && b.len() > 0 {
        assert(a != b);
    } else if a.len() > 0 && b.len() == 0 {
        assert(a != b);
    } else {
        assert(a =~= b);
    }
}

pub proof fn lemma_parts_order_trans(a: Seq<PathPart>, b: Seq<PathPart>, c: Seq<PathPart>)
    requires
        parts_order(a, b) < 0,
        parts_order(b, c) < 0,
    ensures
        parts_order(a, c) < 0,
    decreases a.len(),
{
    if a.len() > 0 && b.len() > 0 && c.len() > 0 {
        lemma_part_order(a[0], b[0]);
        lemma_part_order(b[0], c[0]);
        lemma_part_order(a[0], c[0]);
        if part_order(a[0], b[0]) < 0 && part_order(b[0], c[0]) < 0 {
            lemma_part_order_trans(a[0], b[0], c[0]);
        } else if part_order(a[0], b[0]) == 0 && part_order(b[0], c[0]) == 0 {
            lemma_parts_order_trans(a.drop_first(), b.drop_first(), c.drop_first());
        }
    }
}

fn compare_chars(a: &Vec<char>, b: &Vec<char>) -> (r: i8)
    ensures
        r as int == chars_order(a@, b@),
{
    let mut i: usize = 0;
    assert(a@.skip(0) =~= a@);
    assert(b@.skip(0) =~= b@);
    loop
        invariant
            i <= a@.len(),
            i <= b@.len(),
            chars_order(a@, b@) == chars_order(a@.skip(i as int), b@.skip(i as int)),
        decreases a@.len() - i,
    {
        if i == a.len() {
            if i == b.len() {
                return 0;
            }
            return -1;
        }
        if i == b.len() {
            return 1;
        }
        let x = a[i];
        let y = b[i];
        assert(a@.skip(i as int)[0] == x);
        assert(b@.skip(i as int)[0] == y);
        if x < y {
            return -1;
        }
        if x > y {
            return 1;
        }
        assert(a@.skip(i as int).drop_first() =~= a@.skip(i + 1));
        assert(b@.skip(i as int).drop_first() =~= b@.skip(i + 1));
        i = i + 1;
    }
}

fn compare_component(p: &Component, q: &Component) -> (r: i8)
    ensures
        r as int == part_order(p@, q@),
{
    match (p, q) {
        (Component::Normal(a), Component::Normal(b)) => compare_chars(a, b),
        _ => {
            let rp: i8 = match p {
                Component::RootDir => 1,
                Component::CurDir => 2,
                Component::ParentDir => 3,
                Component::Normal(_) => 4,
            };
            let rq: i8 = match q {
                Component::RootDir => 1,
                Component::CurDir => 2,
                Component::ParentDir => 3,
                Component::Normal(_) => 4,
            };
            if rp < rq {
                -1
            } else if rp > rq {
                1
            } else {
                0
            }
        },
    }
}

/// Compares two component sequences as `Path` compares paths.
pub fn compare_components(a: &Vec<Component>, b: &Vec<Component>) -> (r: i8)
    ensures
        r as int == parts_order(parts_view(a@), parts_view(b@)),
{
    let ghost va = parts_view(a@);
    let ghost vb = parts_view(b@);
    let mut i: usize = 0;
    assert(va.skip(0) =~= va);
    assert(vb.skip(0) =~= vb);
    loop
        invariant
            va == parts_view(a@),
            vb == parts_view(b@),
            i <= a@.len(),
            i <= b@.len(),
            parts_order(va, vb) == parts_order(va.skip(i as int), vb.skip(i as int)),
        decreases a@.len() - i,
    {
        if i == a.len() {
            if i == b.len() {
                return 0;
            }
            return -1;
        }
        if i == b.len() {
            return 1;
        }
        assert(va.skip(i as int)[0] == a@[i as int]@);
        assert(vb.skip(i as int)[0] == b@[i as int]@);
        let c = compare_component(&a[i], &b[i]);
        if c != 0 {
            return c;
        }
        assert(va.skip(i as int).drop_first() =~= va.skip(i + 1));
        assert(vb.skip(i as int).drop_first() =~= vb.skip(i + 1));
        i = i + 1;
    }
}

/// Compares two paths as `Path` does.
pub fn compare_paths(a: &str, b: &str) -> (r: i8)
    ensures
        r as int == path_order(a@, b@),
{
    let ca = components(a);
    let cb = components(b);
    compare_components(&ca, &cb)
}

struct KeyedPath {
    path: String,
    parts: Vec<Component>,
}

spec fn keyed_ok(k: KeyedPath) -> bool {
    parts_view(k.parts@) == path_components(k.path@)
}

spec fn keyed_paths(v: Seq<KeyedPath>) -> Seq<Seq<char>> {
    v.map_values(|k: KeyedPath| k.path@)
}

/// The string views of a vector of strings.
pub open spec fn path_strings(v: Seq<String>) -> Seq<Seq<char>> {
    v.map_values(|s: String| s@)
}

/// Paths in strictly increasing `Path` order, so that no two have the same
/// components.
#[verifier::opaque]
pub open spec fn strictly_sorted(ps: Seq<Seq<char>>) -> bool {
    forall|i: int, j: int| 0 <= i < j < ps.len() ==> path_order(ps[i], ps[j]) < 0
}

/// No path before index `i` has the components of the path at `i`.
pub open spec fn first_of_its_kind(ps: Seq<Seq<char>>, i: int) -> bool {
    forall|j: int| 0 <= j < i ==> path_components(ps[j]) != path_components(ps[i])
}

/// `p` is in `input`, and no path before it there has its components.
pub open spec fn first_occurrence_in(input: Seq<Seq<char>>, p: Seq<char>) -> bool {
    exists|i: int| #![trigger input[i]] 0 <= i < input.len() && input[i] == p && first_of_its_kind(input, i)
}

/// Some path of `output` has the components of `p`.
pub open spec fn has_same_components(output: Seq<Seq<char>>, p: Seq<char>) -> bool {
    exists|k: int| #![trigger output[k]] 0 <= k < output.len() && path_components(p) == path_components(output[k])
}

/// Each output path is the first input path with its components.
#[verifier::opaque]
pub open spec fn kept_first_occurrences(input: Seq<Seq<char>>, output: Seq<Seq<char>>) -> bool {
    forall|k: int| 0 <= k < output.len() ==> first_occurrence_in(input, #[trigger] output[k])
}

/// Each input path has an output path with its components.
#[verifier::opaque]
pub open spec fn covers_all(input: Seq<Seq<char>>, output: Seq<Seq<char>>) -> bool {
    forall|i: int| 0 <= i < input.len() ==> has_same_components(output, #[trigger] input[i])
}

/// A path whose components are already kept leaves the kept paths as they are.
proof fn lemma_skip_duplicate(xs: Seq<Seq<char>>, x: Seq<char>, ys: Seq<Seq<char>>, j: int)
    requires
        kept_first_occurrences(xs, ys),
        covers_all(xs, ys),
        0 <= j < ys.len(),
        path_components(ys[j]) == path_components(x),
    ensures
        kept_first_occurrences(xs.push(x), ys),
        covers_all(xs.push(x), ys),
{
    reveal(kept_first_occurrences);
    reveal(covers_all);
    let zs = xs.push(x);
    assert forall|a: int| 0 <= a < zs.len() implies has_same_components(ys, #[trigger] zs[a]) by {
        if a < xs.len() {
            assert(zs[a] == xs[a]);
            assert(has_same_components(ys, xs[a]));
        } else {
            assert(zs[a] == x);
            assert(ys[j] == ys[j]);
        }
    }
    assert forall|k: int| 0 <= k < ys.len() implies first_occurrence_in(zs, #[trigger] ys[k]) by {
        assert(first_occurrence_in(xs, ys[k]));
        let a = choose|a: int| 0 <= a < xs.len() && xs[a] == ys[k] && first_of_its_kind(xs, a);
        assert(zs[a] == ys[k]);
        assert forall|b: int| 0 <= b < a implies path_components(#[trigger] zs[b])
            != path_components(zs[a]) by {
            assert(zs[b] == xs[b]);
        }
    }
}

/// Inserting a path between the kept paths before and after it keeps them
/// sorted.
proof fn lemma_insert_sorted(x: Seq<char>, ys: Seq<Seq<char>>, j: int)
    requires
        strictly_sorted(ys),
        0 <= j <= ys.len(),
        forall|k: int| 0 <= k < j ==> path_order(#[trigger] ys[k], x) < 0,
        j < ys.len() ==> path_order(x, ys[j]) < 0,
    ensures
        strictly_sorted(ys.insert(j, x)),
        forall|k: int| j <= k < ys.len() ==> path_order(x, #[trigger] ys[k]) < 0,
{
    reveal(strictly_sorted);
    let zs = ys.insert(j, x);
    assert forall|k: int| j <= k < ys.len() implies path_order(x, #[trigger] ys[k]) < 0 by {
        if k > j {
            assert(path_order(ys[j], ys[k]) < 0);
            lemma_parts_order_trans(
                path_components(x),
                path_components(ys[j]),
                path_components(ys[k]),
            );
        }
    }
    assert forall|a: int, b: int| 0 <= a < b < zs.len() implies path_order(zs[a], zs[b]) < 0 by {
        if b < j {
            assert(zs[a] == ys[a] && zs[b] == ys[b]);
        } else if b == j {
            assert(zs[a] == ys[a]);
        } else if a < j {
            assert(zs[a] == ys[a]);
            assert(zs[b] == ys[b - 1]);
            lemma_parts_order_trans(
                path_components(ys[a]),
                path_components(x),
                path_components(ys[b - 1]),
            );
        } else if a == j {
            assert(zs[b] == ys[b - 1]);
        } else {
            assert(zs[a] == ys[a - 1]);
            assert(zs[b] == ys[b - 1]);
        }
    }
}

/// A path that compares unequal to every kept path has the components of no
/// path seen so far.
proof fn lemma_new_components(xs: Seq<Seq<char>>, x: Seq<char>, ys: Seq<Seq<char>>)
    requires
        covers_all(xs, ys),
        forall|k: int| 0 <= k < ys.len() ==> path_order(#[trigger] ys[k], x) != 0,
    ensures
        forall|b: int| 0 <= b < xs.len() ==> path_components(#[trigger] xs[b]) != path_components(x),
{
    reveal(covers_all);
    assert forall|b: int| 0 <= b < xs.len() implies path_components(#[trigger] xs[b])
        != path_components(x) by {
        if path_components(xs[b]) == path_components(x) {
            assert(has_same_components(ys, xs[b]));
            let k = choose|k: int|
                0 <= k < ys.len() && path_components(xs[b]) == path_components(ys[k]);
            lemma_parts_order(path_components(ys[k]), path_components(x));
            assert(path_order(ys[k], x) != 0);
        }
    }
}

/// Inserting a path of new components keeps every seen path covered and
/// every kept path the first of its kind.
proof fn lemma_insert_keeps(xs: Seq<Seq<char>>, x: Seq<char>, ys: Seq<Seq<char>>, j: int)
    requires
        kept_first_occurrences(xs, ys),
        covers_all(xs, ys),
        0 <= j <= ys.len(),
        forall|b: int| 0 <= b < xs.len() ==> path_components(#[trigger] xs[b]) != path_components(x),
    ensures
        kept_first_occurrences(xs.push(x), ys.insert(j, x)),
        covers_all(xs.push(x), ys.insert(j, x)),
{
    reveal(kept_first_occurrences);
    reveal(covers_all);
    let zs = ys.insert(j, x);
    let xs2 = xs.push(x);
    assert forall|a: int| 0 <= a < xs2.len() implies has_same_components(zs, #[trigger] xs2[a]) by {
        if a < xs.len() {
            assert(xs2[a] == xs[a]);
            assert(has_same_components(ys, xs[a]));
            let k = choose|k: int|
                0 <= k < ys.len() && path_components(xs[a]) == path_components(ys[k]);
            if k < j {
                assert(zs[k] == ys[k]);
            } else {
                assert(zs[k + 1] == ys[k]);
            }
        } else {
            assert(zs[j] == x);
        }
    }
    assert forall|k: int| 0 <= k < zs.len() implies first_occurrence_in(xs2, #[trigger] zs[k]) by {
        if k == j {
            assert(xs2[xs.len() as int] == zs[k]);
            assert forall|b: int| 0 <= b < xs.len() implies path_components(#[trigger] xs2[b])
                != path_components(xs2[xs.len() as int]) by {
                assert(xs2[b] == xs[b]);
            }
        } else {
            let kk = if k < j {
                k
            } else {
                k - 1
            };
            assert(zs[k] == ys[kk]);
            assert(first_occurrence_in(xs, ys[kk]));
            let a = choose|a: int| 0 <= a < xs.len() && xs[a] == ys[kk] && first_of_its_kind(xs, a);
            assert(xs2[a] == zs[k]);
            assert forall|b: int| 0 <= b < a implies path_components(#[trigger] xs2[b])
                != path_components(xs2[a]) by {
                assert(xs2[b] == xs[b]);
            }
        }
    }
}

/// Adds `path` to the kept paths unless a path with its components is kept
/// already.
fn insert_keyed(out: &mut Vec<KeyedPath>, path: &String, Ghost(seen): Ghost<Seq<Seq<char>>>)
    requires
        forall|k: int| 0 <= k < old(out)@.len() ==> keyed_ok(#[trigger] old(out)@[k]),
        strictly_sorted(keyed_paths(old(out)@)),
        kept_first_occurrences(seen, keyed_paths(old(out)@)),
        covers_all(seen, keyed_paths(old(out)@)),
    ensures
        forall|k: int| 0 <= k < final(out)@.len() ==> keyed_ok(#[trigger] final(out)@[k]),
        strictly_sorted(keyed_paths(final(out)@)),
        kept_first_occurrences(seen.push(path@), keyed_paths(final(out)@)),
        covers_all(seen.push(path@), keyed_paths(final(out)@)),
{
    let parts = components(path.as_str());
    let ghost x = path@;
    let ghost ys = keyed_paths(out@);
    let mut j: usize = 0;
    let mut found_equal = false;
    let mut searching = true;
    while searching && j < out.len()
        invariant
            j <= out@.len(),
            parts_view(parts@) == path_components(x),
            ys == keyed_paths(out@),
            forall|k: int| 0 <= k < out@.len() ==> keyed_ok(#[trigger] out@[k]),
            forall|k: int| 0 <= k < j ==> path_order(#[trigger] ys[k], x) < 0,
            searching ==> !found_equal,
            !searching ==> j < out@.len() && path_order(ys[j as int], x) >= 0 && (found_equal
                <==> path_order(ys[j as int], x) == 0),
        decreases out@.len() - j + (if searching {
            1int
        } else {
            0int
        }),
    {
        let c = compare_components(&out[j].parts, &parts);
        proof {
            assert(keyed_ok(out@[j as int]));
            assert(ys[j as int] == out@[j as int].path@);
        }
        if c >= 0 {
            searching = false;
            found_equal = c == 0;
        } else {
            j = j + 1;
        }
    }
    if found_equal {
        proof {
            lemma_parts_order(path_components(ys[j as int]), path_components(x));
            lemma_skip_duplicate(seen, x, ys, j as int);
        }
    } else {
        proof {
            if j < ys.len() {
                lemma_parts_order(path_components(ys[j as int]), path_components(x));
            }
            lemma_insert_sorted(x, ys, j as int);
            assert forall|k: int| 0 <= k < ys.len() implies path_order(#[trigger] ys[k], x) != 0 by {
                if k >= j {
                    lemma_parts_order(path_components(ys[k]), path_components(x));
                }
            }
            lemma_new_components(seen, x, ys);
            lemma_insert_keeps(seen, x, ys, j as int);
        }
        let ghost old_out = out@;
        out.insert(j, KeyedPath { path: path.clone(), parts });
        proof {
            assert(keyed_paths(out@) =~= ys.insert(j as int, x));
            assert forall|k: int| 0 <= k < out@.len() implies keyed_ok(#[trigger] out@[k]) by {
                if k < j {
                    assert(out@[k] == old_out[k]);
                } else if k > j {
                    assert(out@[k] == old_out[k - 1]);
                }
            }
        }
    }
}

/// Sorts paths as `Path` orders them and keeps one of each set of paths with
/// the same components: the first of them in the input, as a stable sort
/// followed by the removal of consecutive equal paths keeps.
pub fn sort_and_dedup_paths(paths: Vec<String>) -> (r: Vec<String>)
    ensures
        strictly_sorted(path_strings(r@)),
        kept_first_occurrences(path_strings(paths@), path_strings(r@)),
        covers_all(path_strings(paths@), path_strings(r@)),
{
    let ghost xs = path_strings(paths@);
    let mut out: Vec<KeyedPath> = Vec::new();
    let mut i: usize = 0;
    assert(strictly_sorted(keyed_paths(out@))) by {
        reveal(strictly_sorted);
    }
    assert(kept_first_occurrences(xs.take(0), keyed_paths(out@))) by {
        reveal(kept_first_occurrences);
    }
    assert(covers_all(xs.take(0), keyed_paths(out@))) by {
        reveal(covers_all);
    }
    while i < paths.len()
        invariant
            i <= paths@.len(),
            xs == path_strings(paths@),
            forall|k: int| 0 <= k < out@.len() ==> keyed_ok(#[trigger] out@[k]),
            strictly_sorted(keyed_paths(out@)),
            kept_first_occurrences(xs.take(i as int), keyed_paths(out@)),
            covers_all(xs.take(i as int), keyed_paths(out@)),
        decreases paths@.len() - i,
    {
        insert_keyed(&mut out, &paths[i], Ghost(xs.take(i as int)));
        proof {
            assert(xs.take(i + 1) =~= xs.take(i as int).push(paths@[i as int]@));
        }
        i = i + 1;
    }
    proof {
        assert(xs.take(paths@.len() as int) =~= xs);
    }
    let mut result: Vec<String> = Vec::new();
    let mut k: usize = 0;
    while k < out.len()
        invariant
            k <= out@.len(),
            path_strings(result@) == keyed_paths(out@).take(k as int),
        decreases out@.len() - k,
    {
        let ghost before = path_strings(result@);
        result.push(out[k].path.clone());
        proof {
            assert(path_strings(result@) =~= before.push(out@[k as int].path@));
            assert(keyed_paths(out@).take(k + 1) =~= keyed_paths(out@).take(k as int).push(
                out@[k as int].path@,
            ));
        }
        k = k + 1;
    }
    proof {
        assert(keyed_paths(out@).take(out@.len() as int) =~= keyed_paths(out@));
    }
    result
}

} // verus!
