//! Unix paths held as their bytes: the NUL-terminated buffers filled by
//! the kernel, the final component of a path and its parent, and joining.
use vstd::prelude::*;

verus! {

pub const SLASH: u8 = 0x2f;

pub const DOT: u8 = 0x2e;

/// The bytes of a NUL-terminated buffer before its first NUL.
pub open spec fn c_str(buf: Seq<u8>) -> Seq<u8>
    decreases buf.len(),
{
    if buf.len() == 0 || buf[0] == 0 {
        seq![]
    } else {
        seq![buf[0]] + c_str(buf.drop_first())
    }
}

/// The buffer holds a NUL somewhere.
pub open spec fn has_nul(buf: Seq<u8>) -> bool {
    exists|i: int| 0 <= i < buf.len() && buf[i] == 0
}

proof fn lemma_c_str_step(buf: Seq<u8>, i: int)
    requires
        0 <= i < buf.len(),
        buf[i] != 0,
    ensures
        c_str(buf.subrange(i, buf.len() as int)) == seq![buf[i]] + c_str(
            buf.subrange(i + 1, buf.len() as int),
        ),
{
    assert(buf.subrange(i, buf.len() as int).drop_first() =~= buf.subrange(i + 1, buf.len() as int));
}

/// Copies the bytes of `buf` before its first NUL.
pub fn c_str_bytes(buf: &[u8]) -> (r: Vec<u8>)
    requires
        has_nul(buf@),
    ensures
        r@ == c_str(buf@),
        r@.len() < buf@.len(),
        buf@[r@.len() as int] == 0,
        forall|j: int| 0 <= j < r@.len() ==> r@[j] == buf@[j] && buf@[j] != 0,
{
    let mut r: Vec<u8> = Vec::new();
    let mut i: usize = 0;
    assert(buf@.subrange(0, buf@.len() as int) =~= buf@);
    while buf[i] != 0
        invariant
            has_nul(buf@),
            i < buf@.len(),
            r@ == buf@.subrange(0, i as int),
            forall|j: int| 0 <= j < i ==> buf@[j] != 0,
            c_str(buf@) == r@ + c_str(buf@.subrange(i as int, buf@.len() as int)),
        decreases buf@.len() - i,
    {
        proof {
            lemma_c_str_step(buf@, i as int);
            assert(r@.push(buf@[i as int]) =~= buf@.subrange(0, i + 1));
            assert(r@ + (seq![buf@[i as int]] + c_str(buf@.subrange(i + 1, buf@.len() as int)))
                =~= r@.push(buf@[i as int]) + c_str(buf@.subrange(i + 1, buf@.len() as int)));
            let k = choose|k: int| 0 <= k < buf@.len() && buf@[k] == 0;
            assert(k > i);
        }
        r.push(buf[i]);
        i = i + 1;
    }
    proof {
        assert(c_str(buf@.subrange(i as int, buf@.len() as int)) =~= seq![]);
        assert(r@ + seq![] =~= r@);
    }
    r
}

/// The path starts at the root directory.
pub open spec fn has_root(p: Seq<u8>) -> bool {
    p.len() > 0 && p[0] == SLASH
}

/// A relative path whose first component is `.`, which is kept as its
/// first component.
pub open spec fn starts_with_cur_dir(p: Seq<u8>) -> bool {
    &&& !has_root(p)
    &&& p.len() > 0
    &&& p[0] == DOT
    &&& (p.len() == 1 || p[1] == SLASH)
}

/// Where the named components of the path begin: after the root and
/// after a leading `.`.
pub open spec fn body_start(p: Seq<u8>) -> int {
    (if has_root(p) { 1int } else { 0int }) + (if starts_with_cur_dir(p) { 1int } else { 0int })
}

/// The position of the last `/` in `p[start..end]`, or `start - 1` if
/// there is none.
pub open spec fn last_sep(p: Seq<u8>, start: int, end: int) -> int
    decreases end - start,
{
    if end <= start {
        start - 1
    } else if p[end - 1] == SLASH {
        end - 1
    } else {
        last_sep(p, start, end - 1)
    }
}

/// `last_sep` lies between `start - 1` and `end - 1`.
pub proof fn lemma_last_sep_bounds(p: Seq<u8>, start: int, end: int)
    ensures
        start - 1 <= last_sep(p, start, end),
        end > start ==> last_sep(p, start, end) < end,
        end <= start ==> last_sep(p, start, end) == start - 1,
    decreases end - start,
{
    if end > start && p[end - 1] != SLASH {
        lemma_last_sep_bounds(p, start, end - 1);
    }
}

/// Where the last segment of `p[start..end]` begins.
pub open spec fn seg_begin(p: Seq<u8>, start: int, end: int) -> int {
    last_sep(p, start, end) + 1
}

/// What is left of `p[start..end]` once its last segment and the `/`
/// before it are taken off.
pub open spec fn seg_rest(p: Seq<u8>, start: int, end: int) -> int {
    let s = last_sep(p, start, end);
    if s >= start { s } else { start }
}

/// A segment that names a component: neither empty nor `.`.
pub open spec fn is_component(seg: Seq<u8>) -> bool {
    seg.len() > 0 && seg != seq![DOT]
}

/// The end of `p[start..end]` once trailing empty and `.` segments are
/// taken off.
pub open spec fn trim_end(p: Seq<u8>, start: int, end: int) -> int
    decreases end - start,
{
    if end <= start {
        end
    } else if is_component(p.subrange(seg_begin(p, start, end), end)) {
        end
    } else {
        proof {
            lemma_last_sep_bounds(p, start, end);
        }
        trim_end(p, start, seg_rest(p, start, end))
    }
}

/// Where the final component of the path ends: trailing separators and
/// `.` segments are not part of it.
pub open spec fn name_end(p: Seq<u8>) -> int {
    trim_end(p, body_start(p), p.len() as int)
}

/// Where the final component of the path begins.
pub open spec fn name_begin(p: Seq<u8>) -> int {
    seg_begin(p, body_start(p), name_end(p))
}

/// The final component of the path, if it is a name (not `..`, the root
/// or a leading `.`).
pub open spec fn file_name(p: Seq<u8>) -> Option<Seq<u8>> {
    let bs = body_start(p);
    let e = name_end(p);
    if e <= bs {
        None
    } else {
        let seg = p.subrange(name_begin(p), e);
        if seg == seq![DOT, DOT] {
            None
        } else {
            Some(seg)
        }
    }
}

/// The path without its final component, with trailing separators and
/// `.` segments taken off.
pub open spec fn parent(p: Seq<u8>) -> Seq<u8> {
    let bs = body_start(p);
    let e = trim_end(p, bs, p.len() as int);
    p.subrange(0, trim_end(p, bs, seg_rest(p, bs, e)))
}

/// `name` appended to `base` as a further component, or `name` alone
/// when it is absolute.
pub open spec fn join(base: Seq<u8>, name: Seq<u8>) -> Seq<u8> {
    if has_root(name) {
        name
    } else if base.len() > 0 && base.last() != SLASH {
        base + seq![SLASH] + name
    } else {
        base + name
    }
}

/// Finds the last `/` in `p[start..end]`.
fn find_last_sep(p: &[u8], start: usize, end: usize) -> (r: Option<usize>)
    requires
        start <= end <= p@.len(),
    ensures
        match r {
            Some(i) => i == last_sep(p@, start as int, end as int) && start <= i < end,
            None => last_sep(p@, start as int, end as int) == start - 1,
        },
{
    let mut k = end;
    while k > start
        invariant
            start <= k <= end <= p@.len(),
            last_sep(p@, start as int, end as int) == last_sep(p@, start as int, k as int),
        decreases k,
    {
        if p[k - 1] == SLASH {
            proof {
                lemma_last_sep_bounds(p@, start as int, k as int);
            }
            return Some(k - 1);
        }
        k = k - 1;
    }
    None
}

/// Whether `p[a..b]` names a component.
fn is_component_at(p: &[u8], a: usize, b: usize) -> (r: bool)
    requires
        a <= b <= p@.len(),
    ensures
        r == is_component(p@.subrange(a as int, b as int)),
{
    if a == b {
        assert(p@.subrange(a as int, b as int).len() == 0);
        false
    } else if b - a == 1 && p[a] == DOT {
        assert(p@.subrange(a as int, b as int) =~= seq![DOT]);
        false
    } else {
        assert(p@.subrange(a as int, b as int).len() != 1 || p@.subrange(a as int, b as int)[0] != DOT);
        true
    }
}

/// Computes `trim_end`.
fn trim_end_exec(p: &[u8], start: usize, end: usize) -> (r: usize)
    requires
        start <= end <= p@.len(),
    ensures
        r == trim_end(p@, start as int, end as int),
        start <= r <= end,
{
    let mut e = end;
    while e > start
        invariant
            start <= e <= end <= p@.len(),
            trim_end(p@, start as int, end as int) == trim_end(p@, start as int, e as int),
        decreases e,
    {
        let (b, rest) = match find_last_sep(p, start, e) {
            Some(i) => (i + 1, i),
            None => (start, start),
        };
        proof {
            lemma_last_sep_bounds(p@, start as int, e as int);
        }
        if is_component_at(p, b, e) {
            return e;
        }
        e = rest;
    }
    e
}

/// Computes `body_start`.
fn body_start_exec(p: &[u8]) -> (r: usize)
    ensures
        r == body_start(p@),
        r <= p@.len(),
{
    if p.len() > 0 && p[0] == SLASH {
        1
    } else if p.len() > 0 && p[0] == DOT && (p.len() == 1 || p[1] == SLASH) {
        1
    } else {
        0
    }
}

/// Locates the final component of a path: where it begins and ends, and
/// where the parent path ends.
pub fn file_name_bounds(p: &[u8]) -> (r: Option<(usize, usize, usize)>)
    ensures
        match r {
            Some((b, e, par)) => {
                &&& file_name(p@) == Some(p@.subrange(b as int, e as int))
                &&& b == name_begin(p@) && e == name_end(p@)
                &&& parent(p@) == p@.subrange(0, par as int)
                &&& par <= b <= e <= p@.len()
            },
            None => file_name(p@) is None,
        },
{
    let bs = body_start_exec(p);
    let e = trim_end_exec(p, bs, p.len());
    if e <= bs {
        return None;
    }
    let (b, rest) = match find_last_sep(p, bs, e) {
        Some(i) => (i + 1, i),
        None => (bs, bs),
    };
    proof {
        lemma_last_sep_bounds(p@, bs as int, e as int);
    }
    if e - b == 2 && p[b] == DOT && p[b + 1] == DOT {
        assert(p@.subrange(b as int, e as int) =~= seq![DOT, DOT]);
        return None;
    }
    assert(b <= e);
    let ghost f = p@.subrange(b as int, e as int);
    assert(f != seq![DOT, DOT]) by {
        if f == seq![DOT, DOT] {
            assert(f.len() == 2);
            assert(e - b == 2);
            assert(f[0] == p@[b as int]);
            assert(f[1] == p@[b + 1]);
        }
    }
    let par = trim_end_exec(p, bs, rest);
    Some((b, e, par))
}

/// Computes `parent`.
pub fn parent_exec(p: &[u8]) -> (r: Vec<u8>)
    ensures
        r@ == parent(p@),
{
    let bs = body_start_exec(p);
    let e = trim_end_exec(p, bs, p.len());
    let rest = match find_last_sep(p, bs, e) {
        Some(i) => i,
        None => bs,
    };
    proof {
        lemma_last_sep_bounds(p@, bs as int, e as int);
    }
    let par = trim_end_exec(p, bs, rest);
    copy_range(p, 0, par)
}

/// Copies `p[a..b]`.
pub fn copy_range(p: &[u8], a: usize, b: usize) -> (r: Vec<u8>)
    requires
        a <= b <= p@.len(),
    ensures
        r@ == p@.subrange(a as int, b as int),
{
    let mut r: Vec<u8> = Vec::new();
    let mut i = a;
    while i < b
        invariant
            a <= i <= b <= p@.len(),
            r@ == p@.subrange(a as int, i as int),
        decreases b - i,
    {
        r.push(p[i]);
        i = i + 1;
        assert(r@ =~= p@.subrange(a as int, i as int));
    }
    r
}

/// Appends `name` to `base` as `join` says.
pub fn join_exec(base: Vec<u8>, name: &[u8]) -> (r: Vec<u8>)
    ensures
        r@ == join(base@, name@),
{
    if name.len() > 0 && name[0] == SLASH {
        return copy_range(name, 0, name.len());
    }
    let mut r = base;
    if r.len() > 0 && r[r.len() - 1] != SLASH {
        r.push(SLASH);
    }
    let ghost prefix = r@;
    let mut i: usize = 0;
    while i < name.len()
        invariant
            i <= name@.len(),
            r@ == prefix + name@.subrange(0, i as int),
        decreases name@.len() - i,
    {
        r.push(name[i]);
        i = i + 1;
        assert(r@ =~= prefix + name@.subrange(0, i as int));
    }
    assert(name@.subrange(0, name@.len() as int) =~= name@);
    r
}

/// Compares two byte strings.
pub fn bytes_eq(a: &[u8], b: &[u8]) -> (r: bool)
    ensures
        r == (a@ == b@),
{
    if a.len() != b.len() {
        return false;
    }
    let mut i: usize = 0;
    while i < a.len()
        invariant
            a@.len() == b@.len(),
            i <= a@.len(),
            forall|j: int| 0 <= j < i ==> a@[j] == b@[j],
        decreases a@.len() - i,
    {
        if a[i] != b[i] {
            return false;
        }
        i = i + 1;
    }
    assert(a@ =~= b@);
    true
}

} // verus!
