//! Unix paths held as strings: their components, the test for a single plain
//! name, joining and the parent directory.

use vstd::prelude::*;

use crate::text::chars_of;

verus! {

/// One component of a Unix path, as `std::path::Path::components` yields them.
pub enum PathComponent {
    RootDir,
    CurDir,
    ParentDir,
    Normal(Seq<char>),
}

/// The pieces of `p` between the separators `/`, empty pieces included.
pub open spec fn split_on_slash(p: Seq<char>) -> Seq<Seq<char>>
    decreases p.len(),
{
    if p.len() == 0 {
        seq![Seq::<char>::empty()]
    } else {
        let prev = split_on_slash(p.drop_last());
        if p.last() == '/' {
            prev.push(Seq::<char>::empty())
        } else {
            prev.update(prev.len() - 1, prev.last().push(p.last()))
        }
    }
}

/// A piece that yields a component: neither empty nor `.`.
pub open spec fn is_kept_segment(s: Seq<char>) -> bool {
    s != Seq::<char>::empty() && s != seq!['.']
}

/// The pieces that yield a component, in order.
pub open spec fn kept_segments(segs: Seq<Seq<char>>) -> Seq<Seq<char>>
    decreases segs.len(),
{
    if segs.len() == 0 {
        Seq::empty()
    } else {
        let k = kept_segments(segs.drop_last());
        if is_kept_segment(segs.last()) {
            k.push(segs.last())
        } else {
            k
        }
    }
}

pub open spec fn segment_component(s: Seq<char>) -> PathComponent {
    if s == seq!['.', '.'] {
        PathComponent::ParentDir
    } else {
        PathComponent::Normal(s)
    }
}

pub open spec fn has_root(p: Seq<char>) -> bool {
    p.len() > 0 && p[0] == '/'
}

pub open spec fn has_leading_cur_dir(p: Seq<char>) -> bool {
    !has_root(p) && p.len() > 0 && p[0] == '.' && (p.len() == 1 || p[1] == '/')
}

/// The components of the Unix path `p`: a root, then a leading `.`, then one
/// component per piece between separators that is neither empty nor `.`.
pub open spec fn path_components(p: Seq<char>) -> Seq<PathComponent> {
    (if has_root(p) {
        seq![PathComponent::RootDir]
    } else {
        Seq::<PathComponent>::empty()
    }) + (if has_leading_cur_dir(p) {
        seq![PathComponent::CurDir]
    } else {
        Seq::<PathComponent>::empty()
    }) + kept_segments(split_on_slash(p)).map_values(|s: Seq<char>| segment_component(s))
}

/// `p` names exactly one entry and that entry is a plain name.
pub open spec fn is_single_normal(p: Seq<char>) -> bool {
    let c = path_components(p);
    c.len() == 1 && c[0] is Normal
}

pub proof fn lemma_split_nonempty(p: Seq<char>)
    ensures
        split_on_slash(p).len() >= 1,
    decreases p.len(),
{
    if p.len() > 0 {
        lemma_split_nonempty(p.drop_last());
    }
}

proof fn lemma_split_take_step(p: Seq<char>, i: int)
    requires
        0 <= i < p.len(),
    ensures
        split_on_slash(p.take(i + 1)) == (if p[i] == '/' {
            split_on_slash(p.take(i)).push(Seq::<char>::empty())
        } else {
            let prev = split_on_slash(p.take(i));
            prev.update(prev.len() - 1, prev.last().push(p[i]))
        }),
{
    assert(p.take(i + 1).drop_last() =~= p.take(i));
}

proof fn lemma_split_without_slash(p: Seq<char>)
    requires
        !p.contains('/'),
    ensures
        split_on_slash(p) == seq![p],
    decreases p.len(),
{
    if p.len() > 0 {
        let q = p.drop_last();
        assert(!q.contains('/')) by {
            if q.contains('/') {
                let i = choose|i: int| 0 <= i < q.len() && q[i] == '/';
                assert(p[i] == '/');
            }
        }
        lemma_split_without_slash(q);
        assert(p.last() != '/') by {
            assert(p[p.len() - 1] == p.last());
        }
        assert(q.push(p.last()) =~= p);
        assert(seq![q].update(0, q.push(p.last())) =~= seq![p]);
    } else {
        assert(p =~= Seq::<char>::empty());
    }
}

/// Every non-empty name without a separator, other than `.` and `..`, is a
/// single plain component, so uploads and downloads accept it whatever
/// characters it holds (spaces included).
pub proof fn lemma_plain_names_are_valid(p: Seq<char>)
    requires
        p.len() > 0,
        !p.contains('/'),
        p != seq!['.'],
        p != seq!['.', '.'],
    ensures
        path_components(p) == seq![PathComponent::Normal(p)],
        is_single_normal(p),
{
    lemma_split_without_slash(p);
    assert(p[0] != '/') by {
        assert(p.contains(p[0]));
    }
    if p[0] == '.' && p.len() == 1 {
        assert(p =~= seq!['.']);
    }
    if p.len() > 1 {
        assert(p[1] != '/') by {
            assert(p.contains(p[1]));
        }
    }
    assert(seq![p].drop_last() =~= Seq::<Seq<char>>::empty());
    assert(seq![p].last() == p);
    assert(p != Seq::<char>::empty()) by {
        assert(p.len() != 0);
    }
    assert(is_kept_segment(p));
    assert(kept_segments(Seq::<Seq<char>>::empty()) == Seq::<Seq<char>>::empty());
    assert(kept_segments(seq![p]) =~= seq![p]);
    assert(path_components(p) =~= seq![PathComponent::Normal(p)]);
}

/// Whether `cs[start..end]` is a kept piece, and whether it is `..`.
fn classify_segment(cs: &Vec<char>, start: usize, end: usize) -> (r: (bool, bool))
    requires
        start <= end <= cs@.len(),
    ensures
        r.0 == is_kept_segment(cs@.subrange(start as int, end as int)),
        r.1 == (cs@.subrange(start as int, end as int) == seq!['.', '.']),
{
    let ghost s = cs@.subrange(start as int, end as int);
    let len = end - start;
    if len == 0 {
        assert(s =~= Seq::<char>::empty());
        proof {
            if s == seq!['.', '.'] {
                assert(s.len() == 2);
            }
        }
        (false, false)
    } else if len == 1 {
        let dot = cs[start] == '.';
        proof {
            if dot {
                assert(s =~= seq!['.']);
            } else {
                assert(s[0] != seq!['.'][0]);
            }
            if s == seq!['.', '.'] {
                assert(s.len() == 2);
            }
        }
        (!dot, false)
    } else {
        let parent = len == 2 && cs[start] == '.' && cs[start + 1] == '.';
        proof {
            assert(s.len() != seq!['.'].len());
            assert(s.len() != 0);
            if parent {
                assert(s =~= seq!['.', '.']);
            } else if len == 2 {
                if s == seq!['.', '.'] {
                    assert(s[0] == '.' && s[1] == '.');
                }
            }
        }
        (true, parent)
    }
}

/// Whether `path` names a single plain entry: no root, no `.` or `..`, no
/// second component (trailing separators and inner `.` pieces are ignored).
/// The path is read as a Unix path: `/` is the only separator.
pub fn path_is_valid(path: &str) -> (valid: bool)
    ensures
        valid == is_single_normal(path@),
        valid == (path_components(path@).len() == 1 && path_components(path@)[0] is Normal),
        path@.len() > 0 && !path@.contains('/') && path@ != seq!['.'] && path@ != seq!['.', '.']
            ==> valid,
{
    proof {
        if path@.len() > 0 && !path@.contains('/') && path@ != seq!['.'] && path@ != seq![
            '.',
            '.',
        ] {
            lemma_plain_names_are_valid(path@);
        }
    }
    let cs = chars_of(path);
    let n = cs.len();
    let ghost p = path@;
    if n > 0 && cs[0] == '/' {
        assert(path_components(p)[0] == PathComponent::RootDir);
        return false;
    }
    if n > 0 && cs[0] == '.' && (n == 1 || cs[1] == '/') {
        assert(path_components(p)[0] == PathComponent::CurDir);
        return false;
    }
    let mut i: usize = 0;
    let mut seg_start: usize = 0;
    let mut kept: usize = 0;
    let mut first_parent = false;
    proof {
        assert(p.take(0) =~= Seq::<char>::empty());
        assert(cs@.subrange(0, 0) =~= Seq::<char>::empty());
    }
    while i < n
        invariant
            n == cs@.len(),
            cs@ == p,
            seg_start <= i <= n,
            split_on_slash(p.take(i as int)).len() >= 1,
            split_on_slash(p.take(i as int)).last() == p.subrange(seg_start as int, i as int),
            kept == kept_segments(split_on_slash(p.take(i as int)).drop_last()).len(),
            kept <= seg_start,
            kept >= 1 ==> (first_parent == (kept_segments(
                split_on_slash(p.take(i as int)).drop_last(),
            )[0] == seq!['.', '.'])),
        decreases n - i,
    {
        let ghost prev = split_on_slash(p.take(i as int));
        proof {
            lemma_split_take_step(p, i as int);
        }
        if cs[i] == '/' {
            let (keep, parent) = classify_segment(&cs, seg_start, i);
            proof {
                assert(prev.push(Seq::<char>::empty()).drop_last() =~= prev);
                assert(prev =~= prev.drop_last().push(prev.last()));
            }
            if keep {
                if kept == 0 {
                    first_parent = parent;
                }
                kept = kept + 1;
            }
            seg_start = i + 1;
            proof {
                assert(p.subrange(seg_start as int, seg_start as int) =~= Seq::<char>::empty());
            }
        } else {
            proof {
                let next = prev.update(prev.len() - 1, prev.last().push(p[i as int]));
                assert(next.drop_last() =~= prev.drop_last());
                assert(p.subrange(seg_start as int, i + 1) =~= p.subrange(
                    seg_start as int,
                    i as int,
                ).push(p[i as int]));
            }
        }
        i = i + 1;
    }
    let (keep, parent) = classify_segment(&cs, seg_start, n);
    let ghost segs = split_on_slash(p);
    proof {
        assert(p.take(n as int) =~= p);
        assert(segs =~= segs.drop_last().push(segs.last()));
    }
    let mut total = kept;
    if keep {
        proof {
            if seg_start == n {
                assert(p.subrange(seg_start as int, n as int) =~= Seq::<char>::empty());
            }
        }
        if kept == 0 {
            first_parent = parent;
        }
        total = kept + 1;
    }
    proof {
        let ks = kept_segments(segs);
        assert(total == ks.len());
        assert(total >= 1 ==> (first_parent == (ks[0] == seq!['.', '.'])));
        assert(path_components(p) =~= ks.map_values(|s: Seq<char>| segment_component(s)));
    }
    total == 1 && !first_parent
}


/// `base` joined with `rel` as `PathBuf::push` does on Unix: an absolute
/// `rel` replaces `base`; otherwise a separator goes between them unless
/// `base` is empty or already ends with one.
pub open spec fn joined(base: Seq<char>, rel: Seq<char>) -> Seq<char> {
    if has_root(rel) {
        rel
    } else if base.len() == 0 || base.last() == '/' {
        base + rel
    } else {
        base + seq!['/'] + rel
    }
}

/// An absolute path stays as it is when joined to any directory, so absolute
/// certificate and key paths in a configuration file are used unchanged.
pub proof fn lemma_join_keeps_absolute(base: Seq<char>, rel: Seq<char>)
    requires
        has_root(rel),
    ensures
        joined(base, rel) == rel,
{
}

/// A relative path joined to a directory ends with that path, behind the
/// directory and a separator.
pub proof fn lemma_join_appends_relative(base: Seq<char>, rel: Seq<char>)
    requires
        !has_root(rel),
        base.len() > 0,
    ensures
        joined(base, rel) == (if base.last() == '/' {
            base + rel
        } else {
            base + seq!['/'] + rel
        }),
        joined(base, rel).subrange(joined(base, rel).len() - rel.len(), joined(base, rel).len() as int)
            == rel,
{
    let j = joined(base, rel);
    assert(j.subrange(j.len() - rel.len(), j.len() as int) =~= rel);
}

/// `base.join(rel)` for Unix paths held as strings.
pub fn join_path(base: &str, rel: &str) -> (r: String)
    ensures
        r@ == joined(base@, rel@),
{
    let rel_chars = chars_of(rel);
    if rel_chars.len() > 0 && rel_chars[0] == '/' {
        return String::from_str(rel);
    }
    let base_chars = chars_of(base);
    let mut r = String::from_str(base);
    if base_chars.len() > 0 && base_chars[base_chars.len() - 1] != '/' {
        r.append("/");
        proof {
            reveal_strlit("/");
        }
    }
    r.append(rel);
    r
}

/// The path has no parent: it has no component, or its last one is the root.
pub open spec fn has_no_parent(p: Seq<char>) -> bool {
    let c = path_components(p);
    c.len() == 0 || c.last() == PathComponent::RootDir
}

/// What `std::path::Path::parent` returns for the Unix path `p`.
pub uninterp spec fn std_path_parent(p: Seq<char>) -> Option<Seq<char>>;

/// `std::path::Path::parent` on a Unix path given as a string. As its
/// documentation says, there is no parent when the path ends in the root or is
/// empty; otherwise the parent is the path without its final component: a
/// prefix of `p` whose components are those of `p` without the last.
#[verifier::external_body]
pub(crate) fn parent_path(p: &str) -> (r: Option<String>)
    ensures
        r is None <==> std_path_parent(p@) is None,
        r is None <==> has_no_parent(p@),
        r matches Some(q) ==> std_path_parent(p@) == Some(q@) && q@.is_prefix_of(p@)
            && path_components(q@) == path_components(p@).drop_last(),
{
    std::path::Path::new(p).parent().map(|q| q.to_string_lossy().into_owned())
}

/// Whether the path has a parent directory.
pub fn path_has_parent(p: &str) -> (r: bool)
    ensures
        r == !has_no_parent(p@),
{
    parent_path(p).is_some()
}

} // verus!
