//! POSIX path arithmetic on character sequences.
//!
//! A path is read as a root marker (a leading `/`) and a list of segments; empty
//! segments and `.` segments carry no meaning and are dropped, as `Path`'s
//! component iterator drops them. Paths that this module builds are written with
//! single `/` separators.

use vstd::prelude::*;
use crate::text::{
    chars_eq, concat, push_all, rfind_char, rfind_char_exec, slice_of,
};

verus! {

/// The path separator.
pub const SEPARATOR: char = '/';

/// `p` starts at the file-system root.
pub open spec fn is_absolute(p: Seq<char>) -> bool {
    p.len() > 0 && p[0] == '/'
}

/// `rel` appended to `base` (`rel` replaces `base` when it is absolute).
pub open spec fn join(base: Seq<char>, rel: Seq<char>) -> Seq<char> {
    if is_absolute(rel) {
        rel
    } else if base.len() == 0 {
        rel
    } else if base.last() == '/' {
        base + rel
    } else {
        base + seq!['/'] + rel
    }
}

/// A piece between separators that names something.
pub open spec fn keep_segment(piece: Seq<char>) -> bool {
    piece.len() > 0 && piece != seq!['.']
}

/// `cur` as a list of at most one segment.
pub open spec fn emit_segment(cur: Seq<char>) -> Seq<Seq<char>> {
    if keep_segment(cur) {
        seq![cur]
    } else {
        Seq::empty()
    }
}

/// The segments of `cur + p`, where `cur` is the unfinished piece read so far.
pub open spec fn split_from(p: Seq<char>, cur: Seq<char>) -> Seq<Seq<char>>
    decreases p.len(),
{
    if p.len() == 0 {
        emit_segment(cur)
    } else if p[0] == '/' {
        emit_segment(cur) + split_from(p.drop_first(), Seq::empty())
    } else {
        split_from(p.drop_first(), cur.push(p[0]))
    }
}

/// The meaningful segments of `p`.
pub open spec fn segments(p: Seq<char>) -> Seq<Seq<char>> {
    split_from(p, Seq::empty())
}

/// The segments joined by single separators.
pub open spec fn join_segments(segs: Seq<Seq<char>>) -> Seq<char>
    decreases segs.len(),
{
    if segs.len() == 0 {
        Seq::empty()
    } else if segs.len() == 1 {
        segs[0]
    } else {
        join_segments(segs.drop_last()) + seq!['/'] + segs.last()
    }
}

/// The path with the given root marker and segments.
pub open spec fn render(absolute: bool, segs: Seq<Seq<char>>) -> Seq<char> {
    (if absolute {
        seq!['/']
    } else {
        Seq::empty()
    }) + join_segments(segs)
}

/// The directory that holds `p`.
pub open spec fn parent(p: Seq<char>) -> Option<Seq<char>> {
    if segments(p).len() == 0 {
        None
    } else {
        Some(render(is_absolute(p), segments(p).drop_last()))
    }
}

/// A file name without its extension (a leading dot does not start one).
pub open spec fn stem_of(name: Seq<char>) -> Seq<char> {
    match rfind_char(name, '.') {
        Some(i) => if i > 0 {
            name.take(i)
        } else {
            name
        },
        None => name,
    }
}

/// The last segment of `p` without its extension.
pub open spec fn file_stem(p: Seq<char>) -> Option<Seq<char>> {
    if segments(p).len() == 0 || segments(p).last() == seq!['.', '.'] {
        None
    } else {
        Some(stem_of(segments(p).last()))
    }
}

/// The extension of the last segment of `p`: what follows its last `.`, when
/// something precedes that dot.
pub open spec fn file_extension(p: Seq<char>) -> Option<Seq<char>> {
    if segments(p).len() == 0 || segments(p).last() == seq!['.', '.'] {
        None
    } else {
        let name = segments(p).last();
        match rfind_char(name, '.') {
            Some(i) => if i > 0 {
                Some(name.skip(i + 1))
            } else {
                None
            },
            None => None,
        }
    }
}

/// The views of a list of character vectors.
pub open spec fn seg_views(v: Seq<Vec<char>>) -> Seq<Seq<char>> {
    v.map_values(|x: Vec<char>| x@)
}

/// Whether `p` is absolute.
pub fn is_absolute_exec(p: &[char]) -> (r: bool)
    ensures
        r == is_absolute(p@),
{
    p.len() > 0 && p[0] == '/'
}

/// `rel` appended to `base`.
pub fn join_exec(base: &[char], rel: &[char]) -> (r: Vec<char>)
    ensures
        r@ == join(base@, rel@),
{
    if is_absolute_exec(rel) || base.len() == 0 {
        slice_of(rel, 0, rel.len())
    } else if base[base.len() - 1] == '/' {
        concat(base, rel)
    } else {
        let mut r = concat(base, &['/']);
        push_all(&mut r, rel);
        r
    }
}

/// The meaningful segments of `p`.
pub fn segments_exec(p: &[char]) -> (r: Vec<Vec<char>>)
    ensures
        seg_views(r@) == segments(p@),
{
    let mut out: Vec<Vec<char>> = Vec::new();
    let mut cur: Vec<char> = Vec::new();
    let mut i: usize = 0;
    assert(p@.skip(0) =~= p@);
    while i < p.len()
        invariant
            i <= p.len(),
            seg_views(out@) + split_from(p@.skip(i as int), cur@) == segments(p@),
        decreases p.len() - i,
    {
        let ghost rest = p@.skip(i as int);
        assert(rest.drop_first() =~= p@.skip(i + 1));
        if p[i] == '/' {
            let keep = cur.len() > 0 && !(cur.len() == 1 && cur[0] == '.');
            assert(keep == keep_segment(cur@)) by {
                if cur@.len() == 1 && cur@[0] == '.' {
                    assert(cur@ =~= seq!['.']);
                }
                if cur@ == seq!['.'] {
                    assert(cur@[0] == '.');
                }
            }
            let ghost before = seg_views(out@);
            if keep {
                let piece = cur;
                out.push(piece);
                assert(seg_views(out@) =~= before + emit_segment(piece@));
            } else {
                assert(emit_segment(cur@) =~= Seq::<Seq<char>>::empty());
                assert(seg_views(out@) =~= before + emit_segment(cur@));
            }
            cur = Vec::new();
        } else {
            cur.push(p[i]);
        }
        i = i + 1;
    }
    let keep = cur.len() > 0 && !(cur.len() == 1 && cur[0] == '.');
    assert(keep == keep_segment(cur@)) by {
        if cur@.len() == 1 && cur@[0] == '.' {
            assert(cur@ =~= seq!['.']);
        }
        if cur@ == seq!['.'] {
            assert(cur@[0] == '.');
        }
    }
    assert(p@.skip(i as int) =~= Seq::<char>::empty());
    let ghost before = seg_views(out@);
    if keep {
        out.push(cur);
        assert(seg_views(out@) =~= before + emit_segment(cur@));
    } else {
        assert(seg_views(out@) =~= before + emit_segment(cur@));
    }
    out
}

/// The segments `segs[from..]` joined by single separators.
pub fn join_segments_exec(segs: &Vec<Vec<char>>, from: usize) -> (r: Vec<char>)
    requires
        from <= segs.len(),
    ensures
        r@ == join_segments(seg_views(segs@).skip(from as int)),
{
    let mut r: Vec<char> = Vec::new();
    let mut k: usize = from;
    assert(seg_views(segs@).skip(from as int).take(0) =~= Seq::<Seq<char>>::empty());
    while k < segs.len()
        invariant
            from <= k <= segs.len(),
            r@ == join_segments(seg_views(segs@).skip(from as int).take(k - from)),
        decreases segs.len() - k,
    {
        let ghost tail = seg_views(segs@).skip(from as int);
        assert(tail.take(k - from + 1).drop_last() =~= tail.take(k - from));
        assert(tail.take(k - from + 1).last() == segs@[k as int]@);
        if k > from {
            r.push('/');
        }
        push_all(&mut r, &segs[k]);
        k = k + 1;
    }
    assert(seg_views(segs@).skip(from as int).take(k - from) =~= seg_views(segs@).skip(
        from as int,
    ));
    r
}


/// The directory that holds `p`.
pub fn parent_exec(p: &[char]) -> (r: Option<Vec<char>>)
    ensures
        r matches Some(v) ==> parent(p@) == Some(v@),
        r is None ==> parent(p@) is None,
{
    let segs = segments_exec(p);
    if segs.len() == 0 {
        return None;
    }
    let mut all = segs;
    let _ = all.pop();
    assert(seg_views(all@) =~= segments(p@).drop_last());
    let body = join_segments_exec(&all, 0);
    assert(seg_views(all@).skip(0) =~= seg_views(all@));
    if is_absolute_exec(p) {
        let r = concat(&['/'], &body);
        assert(r@ =~= render(true, segments(p@).drop_last()));
        Some(r)
    } else {
        assert(body@ =~= render(false, segments(p@).drop_last()));
        Some(body)
    }
}

/// A file name without its extension.
pub fn stem_of_exec(name: &[char]) -> (r: Vec<char>)
    ensures
        r@ == stem_of(name@),
{
    match rfind_char_exec(name, '.') {
        Some(i) => if i > 0 {
            slice_of(name, 0, i)
        } else {
            slice_of(name, 0, name.len())
        },
        None => slice_of(name, 0, name.len()),
    }
}

/// The last segment of `p` without its extension.
pub fn file_stem_exec(p: &[char]) -> (r: Option<Vec<char>>)
    ensures
        r matches Some(v) ==> file_stem(p@) == Some(v@),
        r is None ==> file_stem(p@) is None,
{
    let segs = segments_exec(p);
    if segs.len() == 0 {
        return None;
    }
    let last = &segs[segs.len() - 1];
    assert(last@ == segments(p@).last());
    if chars_eq(last, &['.', '.']) {
        return None;
    }
    Some(stem_of_exec(last))
}

/// The extension of the last segment of `p`.
pub fn file_extension_exec(p: &[char]) -> (r: Option<Vec<char>>)
    ensures
        r matches Some(v) ==> file_extension(p@) == Some(v@),
        r is None ==> file_extension(p@) is None,
{
    let segs = segments_exec(p);
    if segs.len() == 0 {
        return None;
    }
    let last = &segs[segs.len() - 1];
    assert(last@ == segments(p@).last());
    if chars_eq(last, &['.', '.']) {
        return None;
    }
    match rfind_char_exec(last, '.') {
        Some(i) => if i > 0 {
            Some(slice_of(last, i + 1, last.len()))
        } else {
            None
        },
        None => None,
    }
}

} // verus!

verus! {

/// The relative path that leads from `base` to `path`, as
/// `pathdiff::diff_paths` computes it.
pub uninterp spec fn path_diff(path: Seq<char>, base: Seq<char>) -> Option<Seq<char>>;

/// Calls `pathdiff::diff_paths` and renders its result as a string.
///
/// Trusted: the result is `path_diff(path, base)`.
#[verifier::external_body]
pub(crate) fn diff_paths_exec(path: &str, base: &str) -> (r: Option<String>)
    ensures
        r matches Some(s) ==> path_diff(path@, base@) == Some(s@),
        r is None ==> path_diff(path@, base@) is None,
{
    pathdiff::diff_paths(path, base).map(|p| p.to_string_lossy().into_owned())
}

/// The text of the directory that holds `p`, as `std::path::Path::parent`
/// slices it out of `p`.
pub uninterp spec fn path_parent_text(p: Seq<char>) -> Option<Seq<char>>;

/// Calls `std::path::Path::parent` and renders its result as a string.
///
/// Trusted: the result is `path_parent_text(p)`; a parent of a path made from a
/// string is valid UTF-8, so the rendering is exact.
#[verifier::external_body]
pub(crate) fn parent_text_exec(p: &str) -> (r: Option<String>)
    ensures
        r matches Some(s) ==> path_parent_text(p@) == Some(s@),
        r is None ==> path_parent_text(p@) is None,
{
    std::path::Path::new(p).parent().map(|x| x.to_string_lossy().into_owned())
}

/// The rest of `path` after `base`, as `std::path::Path::strip_prefix` slices
/// it out of `path`; `None` when `base` is not a leading part of `path`.
pub uninterp spec fn strip_prefix(path: Seq<char>, base: Seq<char>) -> Option<Seq<char>>;

/// Calls `std::path::Path::strip_prefix` and renders its result as text.
///
/// Trusted: the result is `strip_prefix(path, base)`. The rest of a path made
/// from a string is valid UTF-8, so the rendering is exact.
#[verifier::external_body]
pub fn strip_prefix_exec(path: &[char], base: &[char]) -> (r: Option<Vec<char>>)
    ensures
        r matches Some(v) ==> strip_prefix(path@, base@) == Some(v@),
        r is None ==> strip_prefix(path@, base@) is None,
{
    let (p, b): (String, String) = (path.iter().collect(), base.iter().collect());
    std::path::Path::new(&p).strip_prefix(&b).ok().map(|rest| rest.to_string_lossy().chars().collect())
}

} // verus!

