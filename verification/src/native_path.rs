//! A byte-level model of Unix paths, compared and walked component by
//! component the way `std::path::Path` does it.

use vstd::prelude::*;

verus! {

/// The path separator `/`.
pub const SEPARATOR: u8 = 47u8;

/// The byte `.`.
pub const DOT: u8 = 46u8;

/// The component that stands for the root directory.
pub open spec fn root_component() -> Seq<u8> {
    seq![SEPARATOR]
}

/// The component that stands for a leading `.` of a relative path.
pub open spec fn cur_dir_component() -> Seq<u8> {
    seq![DOT]
}

/// The component `..`, which names the parent directory.
pub open spec fn parent_dir_component() -> Seq<u8> {
    seq![DOT, DOT]
}

/// Some component of the path is `..`.
pub open spec fn has_dot_dot(cs: Seq<Seq<u8>>) -> bool {
    exists|i: int| 0 <= i < cs.len() && cs[i] == parent_dir_component()
}

/// The pieces of `bytes` between separators, in order, empty ones included
/// (what splitting the bytes at every `/` gives).
pub open spec fn split_segments(bytes: Seq<u8>) -> Seq<Seq<u8>>
    decreases bytes.len(),
{
    if bytes.len() == 0 {
        seq![Seq::<u8>::empty()]
    } else {
        let prev = split_segments(bytes.drop_last());
        if bytes.last() == SEPARATOR {
            prev.push(Seq::<u8>::empty())
        } else {
            prev.drop_last().push(prev.last().push(bytes.last()))
        }
    }
}

/// A segment that becomes a component of its own: neither empty nor `.`.
pub open spec fn is_named_segment(seg: Seq<u8>) -> bool {
    seg.len() > 0 && seg != cur_dir_component()
}

pub open spec fn named_segment() -> spec_fn(Seq<u8>) -> bool {
    |seg: Seq<u8>| is_named_segment(seg)
}

pub open spec fn has_root(bytes: Seq<u8>) -> bool {
    bytes.len() > 0 && bytes[0] == SEPARATOR
}

/// A relative path that starts with the component `.`.
pub open spec fn has_leading_cur_dir(bytes: Seq<u8>) -> bool {
    &&& !has_root(bytes)
    &&& bytes.len() > 0
    &&& bytes[0] == DOT
    &&& (bytes.len() == 1 || bytes[1] == SEPARATOR)
}

/// The components of a Unix path: the root (written `/`) if the path starts
/// with a separator, a leading `.` of a relative path, then every segment
/// that is neither empty nor `.`.
pub open spec fn path_components(bytes: Seq<u8>) -> Seq<Seq<u8>> {
    (if has_root(bytes) {
        seq![root_component()]
    } else {
        Seq::<Seq<u8>>::empty()
    }) + (if has_leading_cur_dir(bytes) {
        seq![cur_dir_component()]
    } else {
        Seq::<Seq<u8>>::empty()
    }) + split_segments(bytes).filter(named_segment())
}

/// A name that can stand as a component after the first one.
pub open spec fn is_plain_name(c: Seq<u8>) -> bool {
    c.len() > 0 && !c.contains(SEPARATOR) && c != cur_dir_component()
}

/// Component lists that some byte string has: only the first component may
/// be the root or `.`, every other one is a plain name.
pub open spec fn wf_components(cs: Seq<Seq<u8>>) -> bool {
    forall|i: int|
        0 <= i < cs.len() ==> (is_plain_name(#[trigger] cs[i]) || (i == 0 && (cs[i]
            == root_component() || cs[i] == cur_dir_component())))
}

/// `base` is a prefix of `path`, component by component.
pub open spec fn is_component_prefix(base: Seq<Seq<u8>>, path: Seq<Seq<u8>>) -> bool {
    base.len() <= path.len() && path.subrange(0, base.len() as int) =~= base
}

/// The path has a parent: its last component exists and is not the root.
pub open spec fn has_parent(cs: Seq<Seq<u8>>) -> bool {
    cs.len() > 0 && cs.last() != root_component()
}

/// The bytes of a component list, joined the way `PathBuf::push` joins them.
pub open spec fn render_components(cs: Seq<Seq<u8>>) -> Seq<u8>
    decreases cs.len(),
{
    if cs.len() == 0 {
        Seq::<u8>::empty()
    } else {
        let prev = render_components(cs.drop_last());
        if prev.len() == 0 || prev.last() == SEPARATOR {
            prev + cs.last()
        } else {
            prev.push(SEPARATOR) + cs.last()
        }
    }
}

pub proof fn lemma_split_segments_nonempty(bytes: Seq<u8>)
    ensures
        split_segments(bytes).len() >= 1,
    decreases bytes.len(),
{
    if bytes.len() > 0 {
        lemma_split_segments_nonempty(bytes.drop_last());
    }
}

pub proof fn lemma_split_segments_have_no_separator(bytes: Seq<u8>)
    ensures
        forall|i: int|
            0 <= i < split_segments(bytes).len() ==> !(#[trigger] split_segments(bytes)[i]).contains(
                SEPARATOR,
            ),
    decreases bytes.len(),
{
    if bytes.len() > 0 {
        let prev = split_segments(bytes.drop_last());
        lemma_split_segments_have_no_separator(bytes.drop_last());
        lemma_split_segments_nonempty(bytes.drop_last());
        let cur = split_segments(bytes);
        if bytes.last() != SEPARATOR {
            let grown = prev.last().push(bytes.last());
            assert(!prev[prev.len() - 1].contains(SEPARATOR));
            assert(!grown.contains(SEPARATOR)) by {
                if grown.contains(SEPARATOR) {
                    let j: int = choose|j: int| 0 <= j < grown.len() && grown[j] == SEPARATOR;
                    if j < grown.len() - 1 {
                        assert(prev.last()[j] == SEPARATOR);
                    }
                }
            }
            assert forall|i: int| 0 <= i < cur.len() implies !(#[trigger] cur[i]).contains(
                SEPARATOR,
            ) by {
                if i < cur.len() - 1 {
                    assert(cur[i] == prev[i]);
                }
            }
        } else {
            assert forall|i: int| 0 <= i < cur.len() implies !(#[trigger] cur[i]).contains(
                SEPARATOR,
            ) by {
                if i < cur.len() - 1 {
                    assert(cur[i] == prev[i]);
                } else {
                    assert(cur[i] =~= Seq::<u8>::empty());
                }
            }
        }
    }
}

pub proof fn lemma_named_segments_are_plain(segs: Seq<Seq<u8>>)
    requires
        forall|i: int| 0 <= i < segs.len() ==> !(#[trigger] segs[i]).contains(SEPARATOR),
    ensures
        forall|i: int|
            0 <= i < segs.filter(named_segment()).len() ==> is_plain_name(
                #[trigger] segs.filter(named_segment())[i],
            ),
    decreases segs.len(),
{
    reveal_with_fuel(Seq::filter, 1);
    if segs.len() > 0 {
        let rest = segs.drop_last();
        assert forall|i: int| 0 <= i < rest.len() implies !(#[trigger] rest[i]).contains(
            SEPARATOR,
        ) by {
            assert(rest[i] == segs[i]);
        }
        lemma_named_segments_are_plain(rest);
        let f = segs.filter(named_segment());
        let g = rest.filter(named_segment());
        assert forall|i: int| 0 <= i < f.len() implies is_plain_name(#[trigger] f[i]) by {
            if i < g.len() {
                assert(f[i] == g[i]);
            } else {
                assert(f[i] == segs.last());
                assert(!segs[segs.len() - 1].contains(SEPARATOR));
            }
        }
    }
}

/// Every byte string's component list is well formed.
pub proof fn lemma_path_components_wf(bytes: Seq<u8>)
    ensures
        wf_components(path_components(bytes)),
{
    lemma_split_segments_have_no_separator(bytes);
    lemma_named_segments_are_plain(split_segments(bytes));
    let head = (if has_root(bytes) {
        seq![root_component()]
    } else {
        Seq::<Seq<u8>>::empty()
    }) + (if has_leading_cur_dir(bytes) {
        seq![cur_dir_component()]
    } else {
        Seq::<Seq<u8>>::empty()
    });
    let tail = split_segments(bytes).filter(named_segment());
    let cs = path_components(bytes);
    assert(head.len() <= 1);
    assert(cs =~= head + tail);
    assert forall|i: int| 0 <= i < cs.len() implies (is_plain_name(#[trigger] cs[i]) || (i == 0
        && (cs[i] == root_component() || cs[i] == cur_dir_component()))) by {
        if i >= head.len() {
            assert(cs[i] == tail[i - head.len()]);
        }
    }
}


proof fn lemma_split_append_plain(a: Seq<u8>, b: Seq<u8>)
    requires
        !b.contains(SEPARATOR),
    ensures
        split_segments(a + b) =~= split_segments(a).drop_last().push(split_segments(a).last() + b),
    decreases b.len(),
{
    lemma_split_segments_nonempty(a);
    if b.len() == 0 {
        assert(a + b =~= a);
        assert(split_segments(a).last() + b =~= split_segments(a).last());
    } else {
        let bp = b.drop_last();
        assert(!bp.contains(SEPARATOR)) by {
            if bp.contains(SEPARATOR) {
                let j: int = choose|j: int| 0 <= j < bp.len() && bp[j] == SEPARATOR;
                assert(b[j] == SEPARATOR);
            }
        }
        lemma_split_append_plain(a, bp);
        assert((a + b).drop_last() =~= a + bp);
        assert((a + b).last() == b.last());
        assert(b.last() != SEPARATOR) by {
            assert(b[b.len() - 1] == b.last());
        }
        let l = split_segments(a).last();
        let prev = split_segments(a + bp);
        assert(prev =~= split_segments(a).drop_last().push(l + bp));
        assert(split_segments(a + b) == prev.drop_last().push(prev.last().push(b.last())));
        assert(prev.drop_last() =~= split_segments(a).drop_last());
        assert(prev.last() =~= l + bp);
        assert((l + bp).push(b.last()) =~= l + b);
    }
}

proof fn lemma_filter_push(xs: Seq<Seq<u8>>, e: Seq<u8>)
    ensures
        is_named_segment(e) ==> xs.push(e).filter(named_segment()) =~= xs.filter(
            named_segment(),
        ).push(e),
        !is_named_segment(e) ==> xs.push(e).filter(named_segment()) =~= xs.filter(
            named_segment(),
        ),
{
    reveal_with_fuel(Seq::filter, 1);
    assert(xs.push(e).drop_last() =~= xs);
}

proof fn lemma_render_len(cs: Seq<Seq<u8>>)
    requires
        forall|i: int| 0 <= i < cs.len() ==> (#[trigger] cs[i]).len() > 0,
    ensures
        render_components(cs).len() >= cs.len(),
    decreases cs.len(),
{
    if cs.len() > 0 {
        let p = cs.drop_last();
        assert forall|i: int| 0 <= i < p.len() implies (#[trigger] p[i]).len() > 0 by {
            assert(p[i] == cs[i]);
        }
        lemma_render_len(p);
        assert(cs.last() == cs[cs.len() - 1]);
    }
}

proof fn lemma_render_nonempty(cs: Seq<Seq<u8>>)
    requires
        cs.len() > 0,
        cs.last().len() > 0,
    ensures
        render_components(cs).len() > 0,
        cs.len() == 1 ==> render_components(cs) =~= cs[0],
{
    let prev = render_components(cs.drop_last());
    if cs.len() == 1 {
        assert(cs.drop_last().len() == 0);
        assert(prev.len() == 0);
    }
}

/// Rendering a well-formed component list to bytes and splitting the bytes
/// again gives the same components: the bytes handed to the system name the
/// path the model speaks of.
pub proof fn lemma_render_then_split(cs: Seq<Seq<u8>>)
    requires
        wf_components(cs),
    ensures
        path_components(render_components(cs)) =~= cs,
    decreases cs.len(),
{
    reveal_with_fuel(Seq::filter, 1);
    let r = render_components(cs);
    if cs.len() == 0 {
        assert(split_segments(Seq::<u8>::empty()) =~= seq![Seq::<u8>::empty()]);
        assert(seq![Seq::<u8>::empty()].drop_last() =~= Seq::<Seq<u8>>::empty());
    } else if cs.len() == 1 {
        let c = cs[0];
        assert(cs.drop_last().len() == 0);
        assert(render_components(cs.drop_last()) =~= Seq::<u8>::empty());
        assert(cs.last() == c);
        assert(r =~= c);
        lemma_split_segments_nonempty(c);
        if c == root_component() {
            assert(c =~= Seq::<u8>::empty() + seq![SEPARATOR]);
            assert(split_segments(Seq::<u8>::empty()) =~= seq![Seq::<u8>::empty()]);
            assert(c.drop_last() =~= Seq::<u8>::empty());
            assert(split_segments(c) =~= seq![Seq::<u8>::empty(), Seq::<u8>::empty()]);
            lemma_filter_push(seq![Seq::<u8>::empty()], Seq::<u8>::empty());
            lemma_filter_push(Seq::<Seq<u8>>::empty(), Seq::<u8>::empty());
            assert(seq![Seq::<u8>::empty()] =~= Seq::<Seq<u8>>::empty().push(Seq::<u8>::empty()));
            assert(seq![Seq::<u8>::empty(), Seq::<u8>::empty()] =~= seq![
                Seq::<u8>::empty(),
            ].push(Seq::<u8>::empty()));
        } else {
            assert(!c.contains(SEPARATOR)) by {
                if c == cur_dir_component() {
                    assert(c.len() == 1 && c[0] == DOT);
                } else {
                    assert(is_plain_name(c));
                }
            }
            lemma_split_append_plain(Seq::<u8>::empty(), c);
            assert(Seq::<u8>::empty() + c =~= c);
            assert(split_segments(Seq::<u8>::empty()) =~= seq![Seq::<u8>::empty()]);
            assert(seq![Seq::<u8>::empty()].drop_last() =~= Seq::<Seq<u8>>::empty());
            assert(Seq::<u8>::empty() + c =~= c);
            assert(split_segments(c) =~= Seq::<Seq<u8>>::empty().push(c));
            lemma_filter_push(Seq::<Seq<u8>>::empty(), c);
            if c == cur_dir_component() {
                assert(!is_named_segment(c));
            } else {
                assert(c[0] != SEPARATOR) by {
                    assert(!c.contains(SEPARATOR));
                }
                if c[0] == DOT && c.len() > 1 {
                    assert(c[1] != SEPARATOR) by {
                        assert(!c.contains(SEPARATOR));
                    }
                }
                if c.len() == 1 && c[0] == DOT {
                    assert(c =~= cur_dir_component());
                }
            }
        }
    } else {
        let prefix = cs.drop_last();
        let c = cs.last();
        assert(wf_components(prefix)) by {
            assert forall|i: int| 0 <= i < prefix.len() implies (is_plain_name(#[trigger] prefix[i])
                || (i == 0 && (prefix[i] == root_component() || prefix[i]
                == cur_dir_component()))) by {
                assert(prefix[i] == cs[i]);
            }
        }
        lemma_render_then_split(prefix);
        let rp = render_components(prefix);
        assert(is_plain_name(cs[cs.len() - 1]));
        assert(prefix.last() == cs[cs.len() - 2]);
        assert(prefix.last().len() > 0) by {
            assert(is_plain_name(cs[cs.len() - 2]) || (cs.len() - 2 == 0 && (cs[0]
                == root_component() || cs[0] == cur_dir_component())));
        }
        lemma_render_nonempty(prefix);
        let a = if rp.len() == 0 || rp.last() == SEPARATOR {
            rp
        } else {
            rp.push(SEPARATOR)
        };
        assert(r =~= a + c);
        assert(a.len() > 0 && a.last() == SEPARATOR) by {
            if !(rp.last() == SEPARATOR) {
                assert(a.last() == SEPARATOR);
            }
        }
        // The segments of `a` end with an empty one.
        assert(a.drop_last() + seq![SEPARATOR] =~= a);
        lemma_split_segments_nonempty(a.drop_last());
        assert(split_segments(a).last() =~= Seq::<u8>::empty());
        lemma_split_append_plain(a, c);
        assert(split_segments(a).last() + c =~= c);
        let sa = split_segments(a);
        assert(sa =~= sa.drop_last().push(Seq::<u8>::empty()));
        lemma_filter_push(sa.drop_last(), Seq::<u8>::empty());
        lemma_filter_push(sa.drop_last(), c);
        // The segments of `a` keep the same named ones as those of `rp`.
        if a != rp {
            assert(a.drop_last() =~= rp);
            assert(sa.drop_last() =~= split_segments(rp));
        } else {
            assert(rp.last() == SEPARATOR);
            assert(rp.drop_last() + seq![SEPARATOR] =~= rp);
            assert(split_segments(rp) =~= split_segments(rp.drop_last()).push(Seq::<u8>::empty()));
            lemma_filter_push(split_segments(rp.drop_last()), Seq::<u8>::empty());
            assert(sa.drop_last() =~= split_segments(rp.drop_last()));
        }
        assert(sa.drop_last().filter(named_segment()) =~= split_segments(rp).filter(named_segment()))
            by {
            if a != rp {
            } else {
                lemma_filter_push(split_segments(rp.drop_last()), Seq::<u8>::empty());
            }
        }
        // The head (root or leading `.`) is decided by the first bytes.
        assert(r[0] == rp[0]);
        assert(has_root(r) == has_root(rp));
        if rp.len() >= 2 {
            assert(r[1] == rp[1]);
        } else {
            assert forall|i: int| 0 <= i < prefix.len() implies (#[trigger] prefix[i]).len() > 0 by {
                assert(prefix[i] == cs[i]);
                assert(is_plain_name(cs[i]) || (i == 0 && (cs[i] == root_component() || cs[i]
                    == cur_dir_component())));
            }
            lemma_render_len(prefix);
            assert(prefix.len() == 1);
            if rp[0] == DOT {
                assert(rp =~= cur_dir_component()) by {
                    assert(rp =~= prefix[0]);
                }
                assert(a != rp);
                assert(r[1] == SEPARATOR);
            }
        }
        assert(has_leading_cur_dir(r) == has_leading_cur_dir(rp));
        assert(cs =~= prefix.push(c));
    }
}

/// A path as the list of its components.
#[derive(Debug)]
pub struct NativePath {
    components: Vec<Vec<u8>>,
}

impl NativePath {
    #[verifier::type_invariant]
    pub open spec fn components_well_formed(&self) -> bool {
        wf_components(self@)
    }
}

impl View for NativePath {
    type V = Seq<Seq<u8>>;

    closed spec fn view(&self) -> Seq<Seq<u8>> {
        self.components@.map_values(|c: Vec<u8>| c@)
    }
}

/// Whether two byte strings are equal.
pub fn bytes_equal(a: &[u8], b: &[u8]) -> (res: bool)
    ensures
        res == (a@ == b@),
{
    if a.len() != b.len() {
        return false;
    }
    let n: usize = a.len();
    let mut i: usize = 0;
    while i < n
        invariant
            n == a@.len(),
            n == b@.len(),
            i <= n,
            forall|j: int| 0 <= j < i ==> a@[j] == b@[j],
        decreases n - i,
    {
        if a[i] != b[i] {
            return false;
        }
        i = i + 1;
    }
    assert(a@ =~= b@);
    true
}

fn copy_bytes(a: &Vec<u8>) -> (res: Vec<u8>)
    ensures
        res@ == a@,
{
    let mut out: Vec<u8> = Vec::new();
    let n: usize = a.len();
    let mut i: usize = 0;
    while i < n
        invariant
            n == a@.len(),
            i <= n,
            out@ =~= a@.subrange(0, i as int),
        decreases n - i,
    {
        out.push(a[i]);
        i = i + 1;
    }
    out
}

fn is_named(seg: &Vec<u8>) -> (res: bool)
    ensures
        res == is_named_segment(seg@),
{
    if seg.len() == 0 {
        false
    } else if seg.len() == 1 && seg[0] == DOT {
        assert(seg@ =~= cur_dir_component());
        false
    } else {
        assert(seg@ != cur_dir_component()) by {
            if seg@.len() == 1 {
                assert(seg@[0] != cur_dir_component()[0]);
            }
        }
        true
    }
}

impl NativePath {
    /// Splits the bytes of a Unix path into its components.
    pub fn from_bytes(bytes: &[u8]) -> (res: NativePath)
        ensures
            res@ == path_components(bytes@),
    {
        let n: usize = bytes.len();
        let mut comps: Vec<Vec<u8>> = Vec::new();
        if n > 0 && bytes[0] == SEPARATOR {
            let mut root: Vec<u8> = Vec::new();
            root.push(SEPARATOR);
            comps.push(root);
        } else if n > 0 && bytes[0] == DOT && (n == 1 || bytes[1] == SEPARATOR) {
            let mut cur: Vec<u8> = Vec::new();
            cur.push(DOT);
            comps.push(cur);
        }
        let ghost head: Seq<Seq<u8>> = comps@.map_values(|c: Vec<u8>| c@);
        assert(head =~= (if has_root(bytes@) {
            seq![root_component()]
        } else {
            Seq::<Seq<u8>>::empty()
        }) + (if has_leading_cur_dir(bytes@) {
            seq![cur_dir_component()]
        } else {
            Seq::<Seq<u8>>::empty()
        }));
        let mut cur: Vec<u8> = Vec::new();
        let ghost mut finished: Seq<Seq<u8>> = Seq::empty();
        let mut i: usize = 0;
        assert(bytes@.take(0) =~= Seq::<u8>::empty());
        assert(split_segments(bytes@.take(0)) =~= finished.push(cur@));
        proof {
            reveal_with_fuel(Seq::filter, 1);
        }
        while i < n
            invariant
                n == bytes@.len(),
                i <= n,
                split_segments(bytes@.take(i as int)) =~= finished.push(cur@),
                comps@.map_values(|c: Vec<u8>| c@) =~= head + finished.filter(named_segment()),
            decreases n - i,
        {
            let ghost prev_take = bytes@.take(i as int);
            assert(bytes@.take(i + 1).drop_last() =~= prev_take);
            proof {
                lemma_split_segments_nonempty(prev_take);
            }
            if bytes[i] == SEPARATOR {
                let named = is_named(&cur);
                let ghost done = cur@;
                let ghost old_comps = comps@.map_values(|c: Vec<u8>| c@);
                if named {
                    let piece = copy_bytes(&cur);
                    comps.push(piece);
                    assert(comps@.map_values(|c: Vec<u8>| c@) =~= old_comps.push(done));
                }
                proof {
                    reveal_with_fuel(Seq::filter, 1);
                    assert(finished.push(done).drop_last() =~= finished);
                    assert(finished.push(done).last() == done);
                }
                cur = Vec::new();
                proof {
                    finished = finished.push(done);
                }
            } else {
                let ghost before = cur@;
                cur.push(bytes[i]);
                proof {
                    assert(finished.push(before).drop_last() =~= finished);
                }
            }
            i = i + 1;
        }
        assert(bytes@.take(n as int) =~= bytes@);
        let named = is_named(&cur);
        let ghost done = cur@;
        let ghost old_comps = comps@.map_values(|c: Vec<u8>| c@);
        if named {
            comps.push(cur);
            assert(comps@.map_values(|c: Vec<u8>| c@) =~= old_comps.push(done));
        }
        proof {
            reveal_with_fuel(Seq::filter, 1);
            assert(finished.push(done).drop_last() =~= finished);
            lemma_path_components_wf(bytes@);
        }
        NativePath { components: comps }
    }

    /// The path as bytes: the components joined by `/`, with no separator
    /// doubled after the root.
    pub fn to_bytes(&self) -> (res: Vec<u8>)
        ensures
            res@ == render_components(self@),
            path_components(res@) == self@,
    {
        proof {
            use_type_invariant(self);
            lemma_render_then_split(self@);
        }
        let mut out: Vec<u8> = Vec::new();
        let n: usize = self.components.len();
        let mut i: usize = 0;
        assert(self@.take(0) =~= Seq::<Seq<u8>>::empty());
        while i < n
            invariant
                n == self@.len(),
                n == self.components@.len(),
                i <= n,
                out@ == render_components(self@.take(i as int)),
            decreases n - i,
        {
            let ghost prev = out@;
            assert(self@.take(i + 1).drop_last() =~= self@.take(i as int));
            assert(self@.take(i + 1).last() == self.components@[i as int]@);
            if out.len() > 0 && out[out.len() - 1] != SEPARATOR {
                out.push(SEPARATOR);
            }
            let ghost mid = out@;
            let comp = &self.components[i];
            let m: usize = comp.len();
            let mut j: usize = 0;
            while j < m
                invariant
                    m == comp@.len(),
                    j <= m,
                    out@ =~= mid + comp@.subrange(0, j as int),
                decreases m - j,
            {
                out.push(comp[j]);
                j = j + 1;
            }
            assert(comp@.subrange(0, m as int) =~= comp@);
            i = i + 1;
        }
        assert(self@.take(n as int) =~= self@);
        out
    }

    /// The number of components.
    pub fn component_count(&self) -> (res: usize)
        ensures
            res == self@.len(),
    {
        self.components.len()
    }

    /// Whether the path starts at the root directory.
    pub fn is_absolute(&self) -> (res: bool)
        ensures
            res == (self@.len() > 0 && self@[0] == root_component()),
    {
        if self.components.len() == 0 {
            false
        } else {
            let first = &self.components[0];
            let r = first.len() == 1 && first[0] == SEPARATOR;
            proof {
                if r {
                    assert(first@ =~= root_component());
                }
                if first@ == root_component() {
                    assert(first@[0] == SEPARATOR);
                }
            }
            r
        }
    }

    /// Whether some component of the path is `..`.
    pub fn has_parent_dir_component(&self) -> (res: bool)
        ensures
            res == has_dot_dot(self@),
    {
        let n: usize = self.components.len();
        let mut i: usize = 0;
        while i < n
            invariant
                n == self@.len(),
                n == self.components@.len(),
                i <= n,
                forall|j: int| 0 <= j < i ==> self@[j] != parent_dir_component(),
            decreases n - i,
        {
            let c = &self.components[i];
            assert(self@[i as int] == c@);
            if c.len() == 2 && c[0] == DOT && c[1] == DOT {
                assert(c@ =~= parent_dir_component());
                return true;
            }
            assert(c@ != parent_dir_component()) by {
                if c@.len() == 2 {
                    assert(c@[0] != DOT || c@[1] != DOT);
                    if c@[0] != DOT {
                        assert(c@[0] != parent_dir_component()[0]);
                    } else {
                        assert(c@[1] != parent_dir_component()[1]);
                    }
                }
            }
            i = i + 1;
        }
        false
    }

    /// The first `count` components, as a path of their own.
    pub fn prefix(&self, count: usize) -> (res: NativePath)
        requires
            count <= self@.len(),
        ensures
            res@ =~= self@.take(count as int),
    {
        proof {
            use_type_invariant(self);
        }
        let mut comps: Vec<Vec<u8>> = Vec::new();
        let mut i: usize = 0;
        while i < count
            invariant
                count <= self@.len(),
                self@.len() == self.components@.len(),
                i <= count,
                comps@.map_values(|c: Vec<u8>| c@) =~= self@.take(i as int),
            decreases count - i,
        {
            let ghost old_comps = comps@.map_values(|c: Vec<u8>| c@);
            let piece = copy_bytes(&self.components[i]);
            comps.push(piece);
            assert(comps@.map_values(|c: Vec<u8>| c@) =~= old_comps.push(self@[i as int]));
            i = i + 1;
        }
        proof {
            assert forall|j: int| 0 <= j < count implies #[trigger] self@.take(count as int)[j]
                == self@[j] by {}
        }
        NativePath { components: comps }
    }

    /// An equal copy of the path.
    pub fn duplicate(&self) -> (res: NativePath)
        ensures
            res@ == self@,
    {
        let r = self.prefix(self.components.len());
        assert(self@.take(self@.len() as int) =~= self@);
        r
    }

    /// The path without its last component, when that component exists and
    /// is not the root (as `Path::parent`).
    pub fn parent(&self) -> (res: Option<NativePath>)
        ensures
            has_parent(self@) ==> (res matches Some(p) && p@ == self@.drop_last()),
            !has_parent(self@) ==> res is None,
    {
        let n: usize = self.components.len();
        if n == 0 {
            return None;
        }
        let last = &self.components[n - 1];
        if last.len() == 1 && last[0] == SEPARATOR {
            assert(last@ =~= root_component());
            return None;
        }
        assert(self@.last() != root_component()) by {
            if last@.len() == 1 {
                assert(last@[0] != root_component()[0]);
            }
        }
        let p = self.prefix(n - 1);
        assert(self@.take(n - 1) =~= self@.drop_last());
        Some(p)
    }

    /// The path with one more component, a plain name.
    pub fn join_component(&self, name: &[u8]) -> (res: NativePath)
        requires
            is_plain_name(name@),
        ensures
            res@ == self@.push(name@),
    {
        proof {
            use_type_invariant(self);
        }
        let mut comps: Vec<Vec<u8>> = Vec::new();
        let n: usize = self.components.len();
        let mut i: usize = 0;
        while i < n
            invariant
                n == self@.len(),
                self@.len() == self.components@.len(),
                i <= n,
                comps@.map_values(|c: Vec<u8>| c@) =~= self@.take(i as int),
            decreases n - i,
        {
            let ghost old_comps = comps@.map_values(|c: Vec<u8>| c@);
            let piece = copy_bytes(&self.components[i]);
            comps.push(piece);
            assert(comps@.map_values(|c: Vec<u8>| c@) =~= old_comps.push(self@[i as int]));
            i = i + 1;
        }
        let mut piece: Vec<u8> = Vec::new();
        let m: usize = name.len();
        let mut j: usize = 0;
        while j < m
            invariant
                m == name@.len(),
                j <= m,
                piece@ =~= name@.subrange(0, j as int),
            decreases m - j,
        {
            piece.push(name[j]);
            j = j + 1;
        }
        assert(name@.subrange(0, m as int) =~= name@);
        let ghost old_comps = comps@.map_values(|c: Vec<u8>| c@);
        comps.push(piece);
        assert(self@.take(n as int) =~= self@);
        assert(comps@.map_values(|c: Vec<u8>| c@) =~= old_comps.push(name@));
        proof {
            let r = self@.push(name@);
            assert forall|k: int| 0 <= k < r.len() implies (is_plain_name(#[trigger] r[k]) || (k
                == 0 && (r[k] == root_component() || r[k] == cur_dir_component()))) by {
                if k < self@.len() {
                    assert(r[k] == self@[k]);
                }
            }
        }
        NativePath { components: comps }
    }

    /// Whether `base` is a prefix of this path, component by component (as
    /// `Path::starts_with`).
    pub fn starts_with(&self, base: &NativePath) -> (res: bool)
        ensures
            res == is_component_prefix(base@, self@),
    {
        let n: usize = base.components.len();
        if n > self.components.len() {
            return false;
        }
        let mut i: usize = 0;
        while i < n
            invariant
                n == base@.len(),
                n <= self@.len(),
                base@.len() == base.components@.len(),
                self@.len() == self.components@.len(),
                i <= n,
                forall|j: int| 0 <= j < i ==> self@[j] == base@[j],
            decreases n - i,
        {
            if !bytes_equal(self.components[i].as_slice(), base.components[i].as_slice()) {
                assert(self@.subrange(0, n as int)[i as int] != base@[i as int]);
                return false;
            }
            i = i + 1;
        }
        assert(self@.subrange(0, n as int) =~= base@);
        true
    }

    /// Whether the two paths have the same components (as `==` on paths).
    pub fn same_path(&self, other: &NativePath) -> (res: bool)
        ensures
            res == (self@ == other@),
    {
        if self.components.len() != other.components.len() {
            assert(self@.len() != other@.len());
            return false;
        }
        let r = self.starts_with(other);
        proof {
            if r {
                assert(self@ =~= self@.subrange(0, other@.len() as int));
            }
        }
        r
    }
}

} // verus!
