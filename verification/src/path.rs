//! Byte-string paths with the Unix reading of `std::path`: components,
//! final names, prefixes by whole components, and joining.

use vstd::prelude::*;

verus! {

/// The path separator `/`.
pub const SEP: u8 = 47;

/// The byte `.`.
pub const DOT: u8 = 46;

/// A component of a path, as `std::path::Component` names them on Unix.
pub enum PathComponent {
    RootDir,
    CurDir,
    ParentDir,
    Normal(Seq<u8>),
}

/// A component of a path, held in executable form.
pub enum Component {
    RootDir,
    CurDir,
    ParentDir,
    Normal(Vec<u8>),
}

impl View for Component {
    type V = PathComponent;

    open spec fn view(&self) -> PathComponent {
        match self {
            Component::RootDir => PathComponent::RootDir,
            Component::CurDir => PathComponent::CurDir,
            Component::ParentDir => PathComponent::ParentDir,
            Component::Normal(v) => PathComponent::Normal(v@),
        }
    }
}

/// The components that a sequence of executable components stands for.
pub open spec fn comps_view(v: Seq<Component>) -> Seq<PathComponent> {
    Seq::new(v.len(), |i: int| v[i]@)
}

/// Whether a path starts with the root, which on Unix makes it absolute.
pub open spec fn is_absolute_spec(p: Seq<u8>) -> bool {
    p.len() > 0 && p[0] == SEP
}

/// The pieces of `p` between separators, in order, empty ones included:
/// a path with `k` separators has `k + 1` pieces.
pub open spec fn segments(p: Seq<u8>) -> Seq<Seq<u8>>
    decreases p.len(),
{
    if p.len() == 0 {
        seq![Seq::<u8>::empty()]
    } else {
        let init = segments(p.drop_last());
        if p.last() == SEP {
            init.push(Seq::<u8>::empty())
        } else {
            init.update(init.len() - 1, init.last().push(p.last()))
        }
    }
}

/// The component that one piece of a path contributes: none for an empty
/// piece, none for `.` unless it is the first piece (then it is the current
/// directory), the parent directory for `..`, and a normal name otherwise.
pub open spec fn segment_component(seg: Seq<u8>, first: bool) -> Option<PathComponent> {
    if seg.len() == 0 {
        None
    } else if seg == seq![DOT] {
        if first {
            Some(PathComponent::CurDir)
        } else {
            None
        }
    } else if seg == seq![DOT, DOT] {
        Some(PathComponent::ParentDir)
    } else {
        Some(PathComponent::Normal(seg))
    }
}

/// Appends an optional component.
pub open spec fn push_opt(s: Seq<PathComponent>, c: Option<PathComponent>) -> Seq<PathComponent> {
    match c {
        Some(x) => s.push(x),
        None => s,
    }
}

/// The components that a sequence of pieces contributes, in order.
pub open spec fn segs_components(segs: Seq<Seq<u8>>) -> Seq<PathComponent>
    decreases segs.len(),
{
    if segs.len() == 0 {
        seq![]
    } else {
        push_opt(
            segs_components(segs.drop_last()),
            segment_component(segs.last(), segs.len() == 1),
        )
    }
}

/// The components of a path, as `Path::components` yields them on Unix: the
/// root if the path starts with `/`, then one component per piece between
/// separators, where empty pieces and `.` pieces vanish, except a `.` that
/// opens a relative path.
pub open spec fn components(p: Seq<u8>) -> Seq<PathComponent> {
    if is_absolute_spec(p) {
        seq![PathComponent::RootDir] + segs_components(segments(p))
    } else {
        segs_components(segments(p))
    }
}

/// The final name of a path, as `Path::file_name` gives it: the last
/// component when that is a normal name, and nothing otherwise.
pub open spec fn file_name_spec(p: Seq<u8>) -> Option<Seq<u8>> {
    let cs = components(p);
    if cs.len() > 0 && cs.last() is Normal {
        Some(cs.last()->Normal_0)
    } else {
        None
    }
}

/// Whether some component of `p` is `..`.
pub open spec fn has_parent_dir_spec(p: Seq<u8>) -> bool {
    exists|i: int| 0 <= i < components(p).len() && components(p)[i] == PathComponent::ParentDir
}

/// Whether the components `a` open the sequence of components `b`.
pub open spec fn is_component_prefix(a: Seq<PathComponent>, b: Seq<PathComponent>) -> bool {
    a.len() <= b.len() && forall|j: int| 0 <= j < a.len() ==> a[j] == b[j]
}

/// Whether `base` is a prefix of `p` by whole components, as
/// `Path::starts_with` decides it.
pub open spec fn starts_with_spec(p: Seq<u8>, base: Seq<u8>) -> bool {
    is_component_prefix(components(base), components(p))
}

/// The path that `PathBuf::push` makes of `p` and `q` on Unix: an absolute
/// `q` replaces `p`; otherwise `q` is appended, after a separator when `p`
/// is not empty and does not already end in one.
pub open spec fn push_spec(p: Seq<u8>, q: Seq<u8>) -> Seq<u8> {
    if is_absolute_spec(q) {
        q
    } else if p.len() > 0 && p.last() != SEP {
        p.push(SEP) + q
    } else {
        p + q
    }
}

/// A name that stands as one normal component: not empty, without a
/// separator, and neither `.` nor `..`.
pub open spec fn is_normal_name(n: Seq<u8>) -> bool {
    &&& n.len() > 0
    &&& forall|j: int| 0 <= j < n.len() ==> n[j] != SEP
    &&& n != seq![DOT]
    &&& n != seq![DOT, DOT]
}

/// Every path has at least one piece.
pub proof fn lemma_segments_nonempty(p: Seq<u8>)
    ensures
        segments(p).len() >= 1,
    decreases p.len(),
{
    if p.len() > 0 {
        lemma_segments_nonempty(p.drop_last());
    }
}

/// How the pieces of a path grow by one byte.
pub proof fn lemma_segments_step(p: Seq<u8>, b: u8)
    ensures
        segments(p.push(b)) == (if b == SEP {
            segments(p).push(Seq::<u8>::empty())
        } else {
            segments(p).update(segments(p).len() - 1, segments(p).last().push(b))
        }),
{
    assert(p.push(b).drop_last() =~= p);
}

/// Classifies one piece of a path.
fn segment_kind(seg: Vec<u8>, first: bool) -> (r: Option<Component>)
    ensures
        match r {
            Some(c) => segment_component(seg@, first) == Some(c@),
            None => segment_component(seg@, first) is None,
        },
{
    if seg.len() == 0 {
        None
    } else if seg.len() == 1 && seg[0] == DOT {
        assert(seg@ =~= seq![DOT]);
        if first {
            Some(Component::CurDir)
        } else {
            None
        }
    } else if seg.len() == 2 && seg[0] == DOT && seg[1] == DOT {
        assert(seg@ =~= seq![DOT, DOT]);
        Some(Component::ParentDir)
    } else {
        Some(Component::Normal(seg))
    }
}

/// Splits a path into its components, as `Path::components` does on Unix.
pub fn path_components(p: &[u8]) -> (r: Vec<Component>)
    ensures
        comps_view(r@) == components(p@),
{
    let mut out: Vec<Component> = Vec::new();
    let absolute = p.len() > 0 && p[0] == SEP;
    if absolute {
        out.push(Component::RootDir);
    }
    let ghost root: Seq<PathComponent> = if absolute {
        seq![PathComponent::RootDir]
    } else {
        seq![]
    };
    assert(comps_view(out@) =~= root);
    let mut cur: Vec<u8> = Vec::new();
    let mut first = true;
    let mut i: usize = 0;
    assert(p@.take(0) =~= Seq::<u8>::empty());
    while i < p.len()
        invariant
            i <= p.len(),
            absolute == is_absolute_spec(p@),
            root == (if absolute {
                seq![PathComponent::RootDir]
            } else {
                seq![]
            }),
            segments(p@.take(i as int)).len() >= 1,
            first == (segments(p@.take(i as int)).len() == 1),
            cur@ == segments(p@.take(i as int)).last(),
            comps_view(out@) == root + segs_components(segments(p@.take(i as int)).drop_last()),
        decreases p.len() - i,
    {
        let ghost segs = segments(p@.take(i as int));
        assert(p@.take(i + 1) =~= p@.take(i as int).push(p@[i as int]));
        proof {
            lemma_segments_step(p@.take(i as int), p@[i as int]);
        }
        let b = p[i];
        if b == SEP {
            let seg = cur;
            cur = Vec::new();
            let k = segment_kind(seg, first);
            let ghost before = out@;
            match k {
                Some(c) => {
                    out.push(c);
                    assert(comps_view(out@) =~= comps_view(before).push(c@));
                },
                None => {},
            }
            let ghost segs2 = segments(p@.take(i + 1));
            assert(segs2.drop_last() =~= segs);
            assert(segs_components(segs) == push_opt(
                segs_components(segs.drop_last()),
                segment_component(segs.last(), segs.len() == 1),
            ));
            first = false;
        } else {
            cur.push(b);
            let ghost segs2 = segments(p@.take(i + 1));
            assert(segs2.drop_last() =~= segs.drop_last());
        }
        i = i + 1;
    }
    assert(p@.take(i as int) =~= p@);
    let ghost segs = segments(p@);
    let k = segment_kind(cur, first);
    let ghost before = out@;
    match k {
        Some(c) => {
            out.push(c);
            assert(comps_view(out@) =~= comps_view(before).push(c@));
        },
        None => {},
    }
    assert(segs_components(segs) == push_opt(
        segs_components(segs.drop_last()),
        segment_component(segs.last(), segs.len() == 1),
    ));
    out
}

/// Whether a path is absolute, as `Path::is_absolute` decides on Unix.
pub fn is_absolute(p: &[u8]) -> (r: bool)
    ensures
        r == is_absolute_spec(p@),
{
    p.len() > 0 && p[0] == SEP
}

/// The final name of a path, as `Path::file_name` gives it.
pub fn file_name(p: &[u8]) -> (r: Option<Vec<u8>>)
    ensures
        match r {
            Some(n) => file_name_spec(p@) == Some(n@),
            None => file_name_spec(p@) is None,
        },
{
    let mut cs = path_components(p);
    let ghost cv = comps_view(cs@);
    if cs.len() == 0 {
        return None;
    }
    let last = cs.pop().unwrap();
    assert(cv.last() == last@);
    match last {
        Component::Normal(n) => Some(n),
        _ => None,
    }
}

/// Whether some component of `p` is `..`.
pub fn has_parent_dir(p: &[u8]) -> (r: bool)
    ensures
        r == has_parent_dir_spec(p@),
{
    let cs = path_components(p);
    let ghost cv = comps_view(cs@);
    let mut i: usize = 0;
    while i < cs.len()
        invariant
            i <= cs.len(),
            cv == comps_view(cs@),
            cv == components(p@),
            forall|j: int| 0 <= j < i ==> cv[j] != PathComponent::ParentDir,
        decreases cs.len() - i,
    {
        match &cs[i] {
            Component::ParentDir => {
                assert(cv[i as int] == PathComponent::ParentDir);
                return true;
            },
            _ => {},
        }
        i = i + 1;
    }
    false
}

/// Compares two byte strings.
pub fn bytes_eq(a: &[u8], b: &[u8]) -> (r: bool)
    ensures
        r == (a@ == b@),
{
    if a.len() != b.len() {
        return false;
    }
    let mut i: usize = 0;
    while i < a.len()
        invariant
            i <= a.len(),
            a.len() == b.len(),
            forall|j: int| 0 <= j < i ==> a@[j] == b@[j],
        decreases a.len() - i,
    {
        if a[i] != b[i] {
            return false;
        }
        i = i + 1;
    }
    assert(a@ =~= b@);
    true
}

/// Compares two components.
fn component_eq(a: &Component, b: &Component) -> (r: bool)
    ensures
        r == (a@ == b@),
{
    match (a, b) {
        (Component::RootDir, Component::RootDir) => true,
        (Component::CurDir, Component::CurDir) => true,
        (Component::ParentDir, Component::ParentDir) => true,
        (Component::Normal(x), Component::Normal(y)) => bytes_eq(x.as_slice(), y.as_slice()),
        _ => false,
    }
}

/// Whether `base` is a prefix of `p` by whole components, as
/// `Path::starts_with` decides it.
pub fn starts_with(p: &[u8], base: &[u8]) -> (r: bool)
    ensures
        r == starts_with_spec(p@, base@),
{
    let cp = path_components(p);
    let cb = path_components(base);
    let ghost vp = comps_view(cp@);
    let ghost vb = comps_view(cb@);
    if cb.len() > cp.len() {
        return false;
    }
    let mut i: usize = 0;
    while i < cb.len()
        invariant
            i <= cb.len() <= cp.len(),
            vp == comps_view(cp@),
            vb == comps_view(cb@),
            vp == components(p@),
            vb == components(base@),
            forall|j: int| 0 <= j < i ==> vb[j] == vp[j],
        decreases cb.len() - i,
    {
        if !component_eq(&cp[i], &cb[i]) {
            assert(vb[i as int] != vp[i as int]);
            return false;
        }
        i = i + 1;
    }
    true
}

/// Appends the bytes of `s` to `v`.
pub(crate) fn append_bytes(v: &mut Vec<u8>, s: &[u8])
    ensures
        final(v)@ == old(v)@ + s@,
{
    let mut i: usize = 0;
    while i < s.len()
        invariant
            i <= s.len(),
            v@ == old(v)@ + s@.take(i as int),
        decreases s.len() - i,
    {
        v.push(s[i]);
        assert(s@.take(i + 1) =~= s@.take(i as int).push(s@[i as int]));
        i = i + 1;
    }
    assert(s@.take(s.len() as int) =~= s@);
}

/// Extends `p` by `q`, as `PathBuf::push` does on Unix.
pub fn push_path(p: &[u8], q: &[u8]) -> (r: Vec<u8>)
    ensures
        r@ == push_spec(p@, q@),
{
    let mut out: Vec<u8> = Vec::new();
    if !is_absolute(q) {
        append_bytes(&mut out, p);
        if p.len() > 0 && p[p.len() - 1] != SEP {
            out.push(SEP);
        }
    }
    append_bytes(&mut out, q);
    assert(p@.len() > 0 ==> p@.last() == p@[p.len() - 1]);
    out
}

/// No piece of a path holds a separator.
pub proof fn lemma_segments_no_sep(p: Seq<u8>)
    ensures
        forall|i: int, j: int|
            0 <= i < segments(p).len() && 0 <= j < segments(p)[i].len() ==> segments(p)[i][j]
                != SEP,
    decreases p.len(),
{
    if p.len() > 0 {
        lemma_segments_nonempty(p.drop_last());
        lemma_segments_no_sep(p.drop_last());
        let init = segments(p.drop_last());
        if p.last() != SEP {
            let s = segments(p);
            assert forall|i: int, j: int| 0 <= i < s.len() && 0 <= j < s[i].len() implies s[i][j]
                != SEP by {
                if i == init.len() - 1 {
                    if j < init.last().len() {
                        assert(s[i][j] == init.last()[j]);
                    }
                }
            }
        }
    }
}

/// Every normal component of a sequence of separator-free pieces is a
/// normal name.
pub proof fn lemma_segs_components_normal(segs: Seq<Seq<u8>>)
    requires
        forall|i: int, j: int|
            0 <= i < segs.len() && 0 <= j < segs[i].len() ==> segs[i][j] != SEP,
    ensures
        forall|k: int|
            0 <= k < segs_components(segs).len() && (#[trigger] segs_components(segs)[k]) is Normal
                ==> is_normal_name(segs_components(segs)[k]->Normal_0),
    decreases segs.len(),
{
    if segs.len() > 0 {
        let init = segs.drop_last();
        assert forall|i: int, j: int| 0 <= i < init.len() && 0 <= j < init[i].len() implies init[i][j]
            != SEP by {
            assert(init[i] == segs[i]);
        }
        lemma_segs_components_normal(init);
        let last = segs.last();
        assert(forall|j: int| 0 <= j < last.len() ==> last[j] != SEP) by {
            assert(last == segs[segs.len() - 1]);
        }
    }
}

/// The final name of a path, when there is one, is a normal name: it is not
/// empty, holds no separator, and is neither `.` nor `..`.
pub proof fn lemma_file_name_is_normal(p: Seq<u8>)
    ensures
        file_name_spec(p) matches Some(n) ==> is_normal_name(n),
{
    lemma_segments_no_sep(p);
    lemma_segs_components_normal(segments(p));
    let body = segs_components(segments(p));
    let cs = components(p);
    if cs.len() > 0 && cs.last() is Normal {
        if is_absolute_spec(p) {
            assert(cs.last() == body[body.len() - 1]);
        } else {
            assert(cs.last() == body[body.len() - 1]);
        }
    }
}

/// Appending bytes without a separator extends the last piece of a path.
pub proof fn lemma_segments_append_plain(pre: Seq<u8>, q: Seq<u8>)
    requires
        forall|j: int| 0 <= j < q.len() ==> q[j] != SEP,
    ensures
        segments(pre + q) == segments(pre).update(
            segments(pre).len() - 1,
            segments(pre).last() + q,
        ),
    decreases q.len(),
{
    lemma_segments_nonempty(pre);
    let s = segments(pre);
    if q.len() == 0 {
        assert(pre + q =~= pre);
        assert(s.last() + q =~= s.last());
        assert(s.update(s.len() - 1, s.last() + q) =~= s);
    } else {
        let q0 = q.drop_last();
        lemma_segments_append_plain(pre, q0);
        assert(pre + q =~= (pre + q0).push(q.last()));
        lemma_segments_step(pre + q0, q.last());
        let s0 = segments(pre + q0);
        assert(s0.last() == s.last() + q0);
        assert(s0.last().push(q.last()) =~= s.last() + q);
        assert(s0.update(s0.len() - 1, s0.last().push(q.last())) =~= s.update(
            s.len() - 1,
            s.last() + q,
        ));
    }
}

/// The empty path has no components.
pub proof fn lemma_components_empty()
    ensures
        components(Seq::<u8>::empty()) == Seq::<PathComponent>::empty(),
{
    let e = seq![Seq::<u8>::empty()];
    assert(segments(Seq::<u8>::empty()) == e);
    assert(e.drop_last() =~= Seq::<Seq<u8>>::empty());
    assert(segs_components(e) == push_opt(
        segs_components(Seq::<Seq<u8>>::empty()),
        segment_component(Seq::<u8>::empty(), true),
    ));
    assert(components(Seq::<u8>::empty()) =~= Seq::<PathComponent>::empty());
}

/// Pushing a normal name onto a path adds exactly that name as a last
/// normal component.
pub proof fn lemma_push_normal_name(p: Seq<u8>, n: Seq<u8>)
    requires
        is_normal_name(n),
    ensures
        components(push_spec(p, n)) == components(p).push(PathComponent::Normal(n)),
        file_name_spec(push_spec(p, n)) == Some(n),
{
    let r = push_spec(p, n);
    assert(!is_absolute_spec(n));
    assert(segment_component(n, true) == Some(PathComponent::Normal(n)));
    assert(segment_component(n, false) == Some(PathComponent::Normal(n)));
    if p.len() == 0 {
        assert(r =~= Seq::<u8>::empty() + n);
        lemma_segments_append_plain(Seq::<u8>::empty(), n);
        assert(segments(Seq::<u8>::empty()) == seq![Seq::<u8>::empty()]);
        assert(segments(r) =~= seq![n]);
        assert(seq![n].drop_last() =~= Seq::<Seq<u8>>::empty());
        assert(segs_components(seq![n]) == push_opt(
            segs_components(Seq::<Seq<u8>>::empty()),
            segment_component(n, true),
        ));
        let e = seq![Seq::<u8>::empty()];
        assert(segments(p) == e);
        assert(e.drop_last() =~= Seq::<Seq<u8>>::empty());
        assert(segs_components(e) == push_opt(
            segs_components(Seq::<Seq<u8>>::empty()),
            segment_component(Seq::<u8>::empty(), true),
        ));
        assert(components(p) =~= Seq::<PathComponent>::empty());
        assert(components(r) =~= components(p).push(PathComponent::Normal(n)));
    } else {
        let base = if p.last() != SEP {
            p.push(SEP)
        } else {
            p
        };
        assert(r == base + n);
        lemma_segments_nonempty(p.drop_last());
        lemma_segments_nonempty(p);
        let inner = if p.last() != SEP {
            segments(p)
        } else {
            segments(p.drop_last())
        };
        if p.last() != SEP {
            lemma_segments_step(p, SEP);
            assert(segments(base) == segments(p).push(Seq::<u8>::empty()));
        } else {
            assert(p.drop_last().push(SEP) =~= p);
            lemma_segments_step(p.drop_last(), SEP);
            assert(segments(base) == segments(p.drop_last()).push(Seq::<u8>::empty()));
        }
        assert(segments(base) == inner.push(Seq::<u8>::empty()));
        lemma_segments_append_plain(base, n);
        assert(segments(base).last() + n =~= n);
        assert(segments(r) =~= inner.push(n));
        assert(inner.push(n).drop_last() =~= inner);
        assert(segs_components(inner.push(n)) == push_opt(
            segs_components(inner),
            segment_component(n, inner.len() + 1 == 1),
        ));
        assert(segs_components(segments(r)) == segs_components(inner).push(
            PathComponent::Normal(n),
        ));
        if p.last() == SEP {
            assert(segments(p).drop_last() =~= inner);
            assert(segs_components(segments(p)) == push_opt(
                segs_components(inner),
                segment_component(Seq::<u8>::empty(), segments(p).len() == 1),
            ));
        }
        assert(segs_components(segments(p)) == segs_components(inner));
        assert(r[0] == p[0]);
        if is_absolute_spec(p) {
            assert(components(r) =~= components(p).push(PathComponent::Normal(n)));
        } else {
            assert(components(r) =~= components(p).push(PathComponent::Normal(n)));
        }
    }
}

/// The components that a sequence of pieces contributes when none of them
/// opens the path.
pub open spec fn segs_components_later(segs: Seq<Seq<u8>>) -> Seq<PathComponent>
    decreases segs.len(),
{
    if segs.len() == 0 {
        seq![]
    } else {
        push_opt(segs_components_later(segs.drop_last()), segment_component(segs.last(), false))
    }
}

/// A separator followed by more bytes starts new pieces after those of the
/// path before it.
pub proof fn lemma_segments_concat_sep(a: Seq<u8>, c: Seq<u8>)
    ensures
        segments(a.push(SEP) + c) == segments(a) + segments(c),
    decreases c.len(),
{
    lemma_segments_nonempty(a);
    lemma_segments_nonempty(c);
    if c.len() == 0 {
        assert(a.push(SEP) + c =~= a.push(SEP));
        lemma_segments_step(a, SEP);
        assert(segments(c) == seq![Seq::<u8>::empty()]);
        assert(segments(a).push(Seq::<u8>::empty()) =~= segments(a) + seq![Seq::<u8>::empty()]);
    } else {
        let c0 = c.drop_last();
        let x = c.last();
        lemma_segments_concat_sep(a, c0);
        lemma_segments_nonempty(c0);
        assert(a.push(SEP) + c =~= (a.push(SEP) + c0).push(x));
        assert(c0.push(x) =~= c);
        lemma_segments_step(a.push(SEP) + c0, x);
        lemma_segments_step(c0, x);
        let sa = segments(a);
        let sc0 = segments(c0);
        if x == SEP {
            assert((sa + sc0).push(Seq::<u8>::empty()) =~= sa + sc0.push(Seq::<u8>::empty()));
        } else {
            assert((sa + sc0).update(
                (sa + sc0).len() - 1,
                (sa + sc0).last().push(x),
            ) =~= sa + sc0.update(sc0.len() - 1, sc0.last().push(x)));
        }
    }
}

/// The components of pieces placed after at least one other piece.
pub proof fn lemma_segs_components_concat(a: Seq<Seq<u8>>, b: Seq<Seq<u8>>)
    requires
        a.len() >= 1,
    ensures
        segs_components(a + b) == segs_components(a) + segs_components_later(b),
    decreases b.len(),
{
    if b.len() == 0 {
        assert(a + b =~= a);
        assert(segs_components(a) + segs_components_later(b) =~= segs_components(a));
    } else {
        let b0 = b.drop_last();
        lemma_segs_components_concat(a, b0);
        assert((a + b).drop_last() =~= a + b0);
        assert((a + b).last() == b.last());
        let x = segment_component(b.last(), false);
        let u = segs_components(a);
        let v = segs_components_later(b0);
        match x {
            Some(c) => {
                assert((u + v).push(c) =~= u + v.push(c));
            },
            None => {},
        }
    }
}

/// Pieces placed after the first contribute no root and no current
/// directory, and a `..` only where they hold one.
pub proof fn lemma_later_components_climb_free(b: Seq<Seq<u8>>)
    requires
        forall|i: int| 0 <= i < b.len() ==> b[i] != seq![DOT, DOT],
    ensures
        forall|i: int|
            0 <= i < segs_components_later(b).len() ==> (#[trigger] segs_components_later(b)[i])
                is Normal,
    decreases b.len(),
{
    if b.len() > 0 {
        let b0 = b.drop_last();
        assert forall|i: int| 0 <= i < b0.len() implies b0[i] != seq![DOT, DOT] by {
            assert(b0[i] == b[i]);
        }
        lemma_later_components_climb_free(b0);
        assert(b.last() == b[b.len() - 1]);
    }
}

/// A piece is `..` exactly where the sequence of pieces has a `..`
/// component.
pub proof fn lemma_parent_dir_piece(segs: Seq<Seq<u8>>)
    ensures
        (exists|i: int| 0 <= i < segs.len() && segs[i] == seq![DOT, DOT]) ==> (exists|k: int|
            0 <= k < segs_components(segs).len() && segs_components(segs)[k]
                == PathComponent::ParentDir),
    decreases segs.len(),
{
    if segs.len() > 0 {
        let s0 = segs.drop_last();
        lemma_parent_dir_piece(s0);
        if exists|i: int| 0 <= i < segs.len() && segs[i] == seq![DOT, DOT] {
            let i = choose|i: int| 0 <= i < segs.len() && segs[i] == seq![DOT, DOT];
            if i < s0.len() {
                assert(s0[i] == segs[i]);
                let k = choose|k: int|
                    0 <= k < segs_components(s0).len() && segs_components(s0)[k]
                        == PathComponent::ParentDir;
                let x = segment_component(segs.last(), segs.len() == 1);
                assert(segs_components(segs)[k] == PathComponent::ParentDir);
            } else {
                assert(segs.last() == seq![DOT, DOT]);
                let n = segs_components(s0).len();
                assert(segs_components(segs)[n as int] == PathComponent::ParentDir);
            }
        }
    }
}

/// Joining a relative path without a `..` component to a directory stays
/// below that directory, read without following links: the joined path's
/// components are the directory's, followed only by normal names.
pub proof fn lemma_join_relative_stays_below(b: Seq<u8>, r: Seq<u8>)
    requires
        !is_absolute_spec(r),
        !has_parent_dir_spec(r),
    ensures
        is_component_prefix(components(b), components(push_spec(b, r))),
        forall|i: int|
            components(b).len() <= i < components(push_spec(b, r)).len() ==> !(
            #[trigger] components(push_spec(b, r))[i] is ParentDir) && !(components(
                push_spec(b, r),
            )[i] is RootDir),
{
    let j = push_spec(b, r);
    let sr = segments(r);
    lemma_segments_nonempty(r);
    lemma_parent_dir_piece(sr);
    assert(components(r) == segs_components(sr));
    assert forall|i: int| 0 <= i < sr.len() implies sr[i] != seq![DOT, DOT] by {
        if sr[i] == seq![DOT, DOT] {
            let k = choose|k: int|
                0 <= k < segs_components(sr).len() && segs_components(sr)[k]
                    == PathComponent::ParentDir;
            assert(components(r)[k] == PathComponent::ParentDir);
        }
    }
    lemma_later_components_climb_free(sr);
    if b.len() == 0 {
        assert(j =~= r);
        lemma_components_empty();
        lemma_segs_components_no_root(sr);
        assert forall|i: int| 0 <= i < components(j).len() implies !(
        #[trigger] components(j)[i] is ParentDir) && !(components(j)[i] is RootDir) by {
            if components(j)[i] is ParentDir {
                assert(components(r)[i] == PathComponent::ParentDir);
            }
        }
    } else {
        let b0 = if b.last() == SEP {
            b.drop_last()
        } else {
            b
        };
        lemma_segments_nonempty(b0);
        assert(j =~= b0.push(SEP) + r) by {
            if b.last() == SEP {
                assert(b0.push(SEP) =~= b);
            }
        }
        lemma_segments_concat_sep(b0, r);
        lemma_segs_components_concat(segments(b0), sr);
        let inner = segs_components(segments(b0));
        let tail = segs_components_later(sr);
        assert(segs_components(segments(j)) == inner + tail);
        if b.last() == SEP {
            assert(b0.push(SEP) =~= b);
            lemma_segments_step(b0, SEP);
            assert(segments(b).drop_last() =~= segments(b0));
            assert(segs_components(segments(b)) == push_opt(
                segs_components(segments(b0)),
                segment_component(Seq::<u8>::empty(), segments(b).len() == 1),
            ));
        }
        assert(segs_components(segments(b)) == inner);
        assert(j[0] == b[0]);
        let root: Seq<PathComponent> = if is_absolute_spec(b) {
            seq![PathComponent::RootDir]
        } else {
            seq![]
        };
        assert(components(b) == root + inner);
        assert(components(j) =~= root + inner + tail);
        assert forall|i: int| components(b).len() <= i < components(j).len() implies !(
        #[trigger] components(j)[i] is ParentDir) && !(components(j)[i] is RootDir) by {
            assert(components(j)[i] == tail[i - components(b).len()]);
        }
    }
}

/// Pieces never contribute a root component.
pub proof fn lemma_segs_components_no_root(segs: Seq<Seq<u8>>)
    ensures
        forall|i: int|
            0 <= i < segs_components(segs).len() ==> !(#[trigger] segs_components(segs)[i] is RootDir),
    decreases segs.len(),
{
    if segs.len() > 0 {
        lemma_segs_components_no_root(segs.drop_last());
    }
}

} // verus!
