//! Paths as strings, on Unix: `/` is the only separator and a path that
//! starts with it is absolute.

use vstd::prelude::*;
use vstd::string::*;

verus! {

/// A path that starts at the root.
pub open spec fn is_absolute(p: Seq<char>) -> bool {
    p.len() > 0 && p[0] == '/'
}

/// `base` joined with `rel` the way `std::path::Path::join` joins on Unix:
/// an absolute `rel` replaces `base`; otherwise `rel` is appended, after a
/// separator where `base` is not empty and does not already end in one.
pub open spec fn joined(base: Seq<char>, rel: Seq<char>) -> Seq<char> {
    if is_absolute(rel) {
        rel
    } else if base.len() > 0 && base.last() != '/' {
        base + seq!['/'] + rel
    } else {
        base + rel
    }
}

/// The length of the directory part of `p`: up to and including its last
/// separator, 0 where it has none.
pub open spec fn dir_len(p: Seq<char>) -> nat
    decreases p.len(),
{
    if p.len() == 0 {
        0
    } else if p.last() == '/' {
        p.len()
    } else {
        dir_len(p.drop_last())
    }
}

/// What one component does to the depth below the start: `..` climbs one
/// level, an empty component or `.` stays, any other name goes one down.
pub open spec fn step_of(c: Seq<char>) -> int {
    if c.len() == 2 && c[0] == '.' && c[1] == '.' {
        -1
    } else if c.len() == 0 || (c.len() == 1 && c[0] == '.') {
        0
    } else {
        1
    }
}

/// How many levels below its start a relative path ends, component by
/// component.
pub open spec fn depth(p: Seq<char>) -> int
    decreases p.len(),
{
    let k = dir_len(p);
    if k == 0 || k > p.len() {
        step_of(p)
    } else {
        depth(p.subrange(0, k - 1)) + step_of(p.subrange(k as int, p.len() as int))
    }
}

/// Whether a relative path never climbs above its start: after each of its
/// components it is at depth 0 or below.
pub open spec fn never_climbs_out(p: Seq<char>) -> bool
    decreases p.len(),
{
    let k = dir_len(p);
    if k == 0 || k > p.len() {
        step_of(p) >= 0
    } else {
        never_climbs_out(p.subrange(0, k - 1)) && depth(p) >= 0
    }
}

/// A path that stays at or below the directory it is joined to: not
/// absolute, and its `..` components never climb above that directory.
pub open spec fn is_inside_relative(p: Seq<char>) -> bool {
    !is_absolute(p) && never_climbs_out(p)
}

/// `p` lies at or below `root`: it is `root` joined with a path that never
/// climbs above it.
pub open spec fn is_below(root: Seq<char>, p: Seq<char>) -> bool {
    exists|r: Seq<char>| is_inside_relative(r) && p == joined(root, r)
}

/// Whether `s` starts with a separator.
fn starts_with_separator(s: &str) -> (b: bool)
    ensures
        b == is_absolute(s@),
{
    let n = s.unicode_len();
    n > 0 && s.get_char(0) == '/'
}

/// Whether `s` holds a separator.
pub fn has_separator(s: &str) -> (b: bool)
    ensures
        b == s@.contains('/'),
{
    let n = s.unicode_len();
    let mut i: usize = 0;
    while i < n
        invariant
            i <= n,
            n == s@.len(),
            forall|j: int| 0 <= j < i ==> s@[j] != '/',
        decreases n - i,
    {
        if s.get_char(i) == '/' {
            assert(s@[i as int] == '/');
            return true;
        }
        i = i + 1;
    }
    false
}

/// `Path::new(base).join(rel)` on Unix, as a string.
pub fn join(base: &str, rel: &str) -> (res: String)
    ensures
        res@ == joined(base@, rel@),
{
    proof {
        reveal_strlit("/");
    }
    if starts_with_separator(rel) {
        return rel.to_owned();
    }
    let n = base.unicode_len();
    let mut res = base.to_owned();
    if n > 0 && base.get_char(n - 1) != '/' {
        res.append("/");
    }
    res.append(rel);
    assert(res@ =~= joined(base@, rel@));
    res
}

/// What the directory part of a path is.
pub proof fn lemma_dir_len(p: Seq<char>)
    ensures
        dir_len(p) <= p.len(),
        dir_len(p) > 0 ==> p[dir_len(p) - 1] == '/',
        forall|j: int| dir_len(p) <= j < p.len() ==> p[j] != '/',
    decreases p.len(),
{
    if p.len() > 0 && p.last() != '/' {
        let q = p.drop_last();
        lemma_dir_len(q);
        assert forall|j: int| dir_len(p) <= j < p.len() implies p[j] != '/' by {
            if j < q.len() {
                assert(q[j] == p[j]);
            }
        }
    }
}

/// The directory part of a path ends at its last separator.
pub proof fn lemma_dir_len_at(p: Seq<char>, k: int)
    requires
        0 <= k <= p.len(),
        k == 0 || p[k - 1] == '/',
        forall|j: int| k <= j < p.len() ==> p[j] != '/',
    ensures
        dir_len(p) == k,
{
    lemma_dir_len(p);
    let d = dir_len(p) as int;
    if d < k {
        assert(p[k - 1] == '/');
    } else if d > k {
        assert(p[d - 1] == '/');
    }
}

/// The length of the directory part of the first `n` characters of `p`.
pub fn dir_len_upto(p: &str, n: usize) -> (k: usize)
    requires
        n <= p@.len(),
    ensures
        k == dir_len(p@.subrange(0, n as int)),
{
    let mut k = n;
    while k > 0
        invariant
            k <= n,
            n <= p@.len(),
            dir_len(p@.subrange(0, n as int)) == dir_len(p@.subrange(0, k as int)),
        decreases k,
    {
        let ghost sub = p@.subrange(0, k as int);
        if p.get_char(k - 1) == '/' {
            assert(sub.last() == '/');
            return k;
        }
        assert(sub.drop_last() =~= p@.subrange(0, k - 1));
        k = k - 1;
    }
    k
}

/// What the component `p[from..to]` does to the depth.
fn component_step(p: &str, from: usize, to: usize) -> (step: i8)
    requires
        from <= to <= p@.len(),
    ensures
        step as int == step_of(p@.subrange(from as int, to as int)),
{
    let ghost c = p@.subrange(from as int, to as int);
    let len = to - from;
    if len == 2 && p.get_char(from) == '.' && p.get_char(from + 1) == '.' {
        assert(c[0] == '.' && c[1] == '.');
        -1
    } else if len == 0 || (len == 1 && p.get_char(from) == '.') {
        0
    } else {
        assert(!(c.len() == 2 && c[0] == '.' && c[1] == '.'));
        1
    }
}

/// A relative path ends no deeper than it is long.
proof fn lemma_depth_bound(p: Seq<char>)
    ensures
        depth(p) <= p.len(),
    decreases p.len(),
{
    lemma_dir_len(p);
    let k = dir_len(p);
    if k > 0 {
        lemma_depth_bound(p.subrange(0, k - 1));
    }
}

/// The depth of the first `n` characters of `p` where they never climb out,
/// else none.
fn depth_upto(p: &str, n: usize) -> (res: Option<usize>)
    requires
        n <= p@.len(),
    ensures
        match res {
            Some(d) => never_climbs_out(p@.subrange(0, n as int)) && d as int == depth(
                p@.subrange(0, n as int),
            ),
            None => !never_climbs_out(p@.subrange(0, n as int)),
        },
    decreases n,
{
    let ghost q = p@.subrange(0, n as int);
    proof {
        lemma_dir_len(q);
        lemma_depth_bound(q);
    }
    let k = dir_len_upto(p, n);
    let step = component_step(p, k, n);
    assert(q.subrange(k as int, n as int) =~= p@.subrange(k as int, n as int));
    if k == 0 {
        assert(q.subrange(0, n as int) =~= q);
        if step < 0 {
            None
        } else {
            Some(step as usize)
        }
    } else {
        assert(q.subrange(0, k - 1) =~= p@.subrange(0, k - 1));
        match depth_upto(p, k - 1) {
            None => None,
            Some(d) => {
                if step < 0 && d == 0 {
                    None
                } else if step < 0 {
                    Some(d - 1)
                } else if step == 0 {
                    Some(d)
                } else {
                    Some(d + 1)
                }
            },
        }
    }
}

/// Whether `p` stays at or below the directory it is joined to.
pub fn is_relative_inside(p: &str) -> (b: bool)
    ensures
        b == is_inside_relative(p@),
{
    let n = p.unicode_len();
    if n > 0 && p.get_char(0) == '/' {
        return false;
    }
    assert(p@.subrange(0, n as int) =~= p@);
    match depth_upto(p, n) {
        Some(_) => true,
        None => false,
    }
}

/// The separator inserted between `base` and a relative path.
pub open spec fn separator(base: Seq<char>) -> Seq<char> {
    if base.len() > 0 && base.last() != '/' {
        seq!['/']
    } else {
        seq![]
    }
}

/// Joining a relative path is appending it after the separator.
pub proof fn lemma_joined_relative(base: Seq<char>, rel: Seq<char>)
    requires
        !is_absolute(rel),
    ensures
        joined(base, rel) == base + separator(base) + rel,
{
    assert(joined(base, rel) =~= base + separator(base) + rel);
}

/// Joining two relative paths in turn is joining their join.
pub proof fn lemma_joined_assoc(base: Seq<char>, r1: Seq<char>, r2: Seq<char>)
    requires
        r1.len() > 0,
        !is_absolute(r1),
        !is_absolute(r2),
    ensures
        joined(joined(base, r1), r2) == joined(base, joined(r1, r2)),
        !is_absolute(joined(r1, r2)),
{
    lemma_joined_relative(base, r1);
    lemma_joined_relative(r1, r2);
    let j1 = joined(base, r1);
    assert(j1.len() > 0);
    assert(j1.last() == r1.last());
    lemma_joined_relative(j1, r2);
    let j2 = joined(r1, r2);
    assert(j2[0] == r1[0]);
    lemma_joined_relative(base, j2);
    assert(joined(joined(base, r1), r2) =~= joined(base, joined(r1, r2)));
}

/// A path that never climbs out still does not after one more name, which
/// holds no separator and is not `..`.
pub proof fn lemma_append_name(a: Seq<char>, b: Seq<char>)
    requires
        never_climbs_out(a),
        forall|i: int| 0 <= i < b.len() ==> #[trigger] b[i] != '/',
        step_of(b) >= 0,
    ensures
        never_climbs_out(a + seq!['/'] + b),
        depth(a + seq!['/'] + b) == depth(a) + step_of(b),
{
    let p = a + seq!['/'] + b;
    let k: int = a.len() as int + 1;
    assert forall|j: int| k <= j < p.len() implies p[j] != '/' by {
        assert(p[j] == b[j - k]);
    }
    lemma_dir_len_at(p, k);
    assert(p.subrange(0, k - 1) =~= a);
    assert(p.subrange(k, p.len() as int) =~= b);
    lemma_climbs_depth(a);
}

/// Appending one more component to a path that never climbs out keeps it
/// so wherever the component does not take it above its start.
pub proof fn lemma_append_component(a: Seq<char>, b: Seq<char>)
    requires
        never_climbs_out(a),
        forall|i: int| 0 <= i < b.len() ==> #[trigger] b[i] != '/',
        depth(a) + step_of(b) >= 0,
    ensures
        never_climbs_out(a + seq!['/'] + b),
        depth(a + seq!['/'] + b) == depth(a) + step_of(b),
{
    let p = a + seq!['/'] + b;
    let k: int = a.len() as int + 1;
    assert forall|j: int| k <= j < p.len() implies p[j] != '/' by {
        assert(p[j] == b[j - k]);
    }
    lemma_dir_len_at(p, k);
    assert(p.subrange(0, k - 1) =~= a);
    assert(p.subrange(k, p.len() as int) =~= b);
}

/// A path that never climbs out ends at depth 0 or below.
pub proof fn lemma_climbs_depth(a: Seq<char>)
    requires
        never_climbs_out(a),
    ensures
        depth(a) >= 0,
{
}

/// A name with no separator that is not `..` stays below.
pub proof fn lemma_name_inside(p: Seq<char>)
    requires
        forall|i: int| 0 <= i < p.len() ==> #[trigger] p[i] != '/',
        step_of(p) >= 0,
    ensures
        is_inside_relative(p),
        dir_len(p) == 0,
{
    lemma_dir_len_at(p, 0);
    if p.len() > 0 {
        assert(p[0] != '/');
    }
}

} // verus!
