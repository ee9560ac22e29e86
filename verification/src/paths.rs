//! Structural matching of qualified paths against literal segment lists.
//!
//! Matching is tail-aligned: a query shorter than the written path matches a
//! trailing suffix of it. Whole-path equality, where a caller needs it, is
//! the caller's to arrange by supplying a query of equal length.

use vstd::prelude::*;
use crate::hir::{Path, PathSegment, QPath, TyKind};
use crate::syms::{Name, SYM_ERR, SYM_OK, SYM_RESULT_MOD, SYM_RESULT_TY};

verus! {

/// Whether written segments match query names, compared pairwise from the
/// right; comparison stops when either side runs out, so a query shorter
/// than the path matches a trailing suffix of it, and an empty query
/// matches trivially.
pub open spec fn spec_match_suffix(p: Seq<PathSegment>, q: Seq<Name>) -> bool
    decreases q.len(),
{
    if p.len() == 0 || q.len() == 0 {
        true
    } else {
        p.last().name == q.last() && spec_match_suffix(p.drop_last(), q.drop_last())
    }
}

/// Whether a resolved path matches a literal segment list, tail-aligned.
pub open spec fn spec_match_path_old(path: Path, segments: Seq<Name>) -> bool {
    spec_match_suffix(path.segments@, segments)
}

/// Match a resolved path against a slice of segment names, tail-aligned.
pub fn match_path_old(path: &Path, segments: &Vec<Name>) -> (r: bool)
    ensures
        r == spec_match_path_old(*path, segments@),
{
    let r = match_path_old_upto(path, segments, segments.len());
    proof {
        assert(segments@.take(segments@.len() as int) =~= segments@);
    }
    r
}

/// Whether a qualified path matches a literal segment list. A resolved path
/// is matched tail-aligned. A type-relative path matches when its base is
/// itself a plain path type whose path matches all but the last query
/// segment, and its trailing segment's name equals the last query segment;
/// an empty query or a non-path base never matches.
pub open spec fn spec_match_path(path: QPath, segments: Seq<Name>) -> bool
    decreases path,
{
    match path {
        QPath::Resolved(_, p) => spec_match_path_old(p, segments),
        QPath::TypeRelative(ty, seg) => match ty.node {
            TyKind::Path(inner) => segments.len() > 0 && spec_match_path(
                inner,
                segments.drop_last(),
            ) && seg.name == segments.last(),
            TyKind::Other => false,
        },
    }
}

/// Match a qualified path against the first `n` names of `segments`.
fn match_path_upto(path: &QPath, segments: &Vec<Name>, n: usize) -> (r: bool)
    requires
        n <= segments@.len(),
    ensures
        r == spec_match_path(*path, segments@.take(n as int)),
    decreases *path,
{
    match path {
        QPath::Resolved(_, p) => match_path_old_upto(p, segments, n),
        QPath::TypeRelative(ty, seg) => match &ty.node {
            TyKind::Path(inner) => {
                if n == 0 {
                    false
                } else {
                    let r = match_path_upto(inner, segments, n - 1) && seg.name == segments[n - 1];
                    proof {
                        assert(segments@.take(n as int).drop_last() =~= segments@.take(
                            n - 1 as int,
                        ));
                        assert(segments@.take(n as int).last() == segments@[n - 1]);
                    }
                    r
                }
            },
            TyKind::Other => false,
        },
    }
}

/// Match a resolved path against the first `n` names of `segments`,
/// tail-aligned.
fn match_path_old_upto(path: &Path, segments: &Vec<Name>, n: usize) -> (r: bool)
    requires
        n <= segments@.len(),
    ensures
        r == spec_match_suffix(path.segments@, segments@.take(n as int)),
{
    let plen = path.segments.len();
    let m = if plen < n {
        plen
    } else {
        n
    };
    let mut i: usize = 0;
    proof {
        assert(path.segments@.take(plen as int) =~= path.segments@);
    }
    while i < m
        invariant
            0 <= i <= m,
            plen == path.segments@.len(),
            m == if plen < n { plen as int } else { n as int },
            n <= segments@.len(),
            spec_match_suffix(path.segments@, segments@.take(n as int)) == spec_match_suffix(
                path.segments@.take(plen - i),
                segments@.take(n - i),
            ),
        decreases m - i,
    {
        let ghost a = plen - i;
        let ghost b = n - i;
        proof {
            assert(path.segments@.take(a).last() == path.segments@[a - 1]);
            assert(segments@.take(b).last() == segments@[b - 1]);
            assert(path.segments@.take(a).drop_last() =~= path.segments@.take(a - 1));
            assert(segments@.take(b).drop_last() =~= segments@.take(b - 1));
        }
        if path.segments[plen - 1 - i].name != segments[n - 1 - i] {
            return false;
        }
        i = i + 1;
    }
    proof {
        if m == plen {
            assert(path.segments@.take(plen - m).len() == 0);
        } else {
            assert(segments@.take(n - m).len() == 0);
        }
    }
    true
}

/// Match a qualified path against a slice of segment names.
pub fn match_path(path: &QPath, segments: &Vec<Name>) -> (r: bool)
    ensures
        r == spec_match_path(*path, segments@),
{
    let r = match_path_upto(path, segments, segments.len());
    proof {
        assert(segments@.take(segments@.len() as int) =~= segments@);
    }
    r
}

/// Whether an unresolved (surface-syntax) path matches a literal segment
/// list, tail-aligned, exactly as for a resolved path.
pub open spec fn spec_match_path_ast(segments: Seq<Name>, query: Seq<Name>) -> bool
    decreases query.len(),
{
    if segments.len() == 0 || query.len() == 0 {
        true
    } else {
        segments.last() == query.last() && spec_match_path_ast(
            segments.drop_last(),
            query.drop_last(),
        )
    }
}

/// Match an unresolved path, given as its segment names, against a slice of
/// segment names, tail-aligned.
pub fn match_path_ast(path: &Vec<Name>, segments: &Vec<Name>) -> (r: bool)
    ensures
        r == spec_match_path_ast(path@, segments@),
{
    let plen = path.len();
    let slen = segments.len();
    let n = if plen < slen {
        plen
    } else {
        slen
    };
    let mut i: usize = 0;
    proof {
        assert(path@.take(plen as int) =~= path@);
        assert(segments@.take(slen as int) =~= segments@);
    }
    while i < n
        invariant
            0 <= i <= n,
            plen == path@.len(),
            slen == segments@.len(),
            n == if plen < slen { plen as int } else { slen as int },
            spec_match_path_ast(path@, segments@) == spec_match_path_ast(
                path@.take(plen - i),
                segments@.take(slen - i),
            ),
        decreases n - i,
    {
        let ghost a = plen - i;
        let ghost b = slen - i;
        proof {
            assert(path@.take(a).last() == path@[a - 1]);
            assert(segments@.take(b).last() == segments@[b - 1]);
            assert(path@.take(a).drop_last() =~= path@.take(a - 1));
            assert(segments@.take(b).drop_last() =~= segments@.take(b - 1));
        }
        if path[plen - 1 - i] != segments[slen - 1 - i] {
            return false;
        }
        i = i + 1;
    }
    proof {
        if n == plen {
            assert(path@.take(plen - n).len() == 0);
        } else {
            assert(segments@.take(slen - n).len() == 0);
        }
    }
    true
}

/// An empty query compares no pairs, so it matches every path.
pub proof fn lemma_match_path_empty(path: Path)
    ensures
        spec_match_path_old(path, Seq::<Name>::empty()),
{
}

/// The last segment of a qualified path: the final written segment of a
/// resolved path, or the trailing segment of a type-relative one.
pub open spec fn spec_last_path_segment(path: QPath) -> PathSegment {
    match path {
        QPath::Resolved(_, p) => p.segments@.last(),
        QPath::TypeRelative(_, seg) => seg,
    }
}

/// The last segment of a qualified path. A resolved path must have at least
/// one segment.
pub fn last_path_segment(path: &QPath) -> (r: &PathSegment)
    requires
        path matches QPath::Resolved(_, p) ==> p.segments@.len() > 0,
    ensures
        *r == spec_last_path_segment(*path),
{
    match path {
        QPath::Resolved(_, p) => &p.segments[p.segments.len() - 1],
        QPath::TypeRelative(_, seg) => seg,
    }
}

/// The only segment of a single-segment path: the segment of a one-segment
/// resolved path or of a type-relative path, and nothing otherwise.
pub open spec fn spec_single_segment_path(path: QPath) -> Option<PathSegment> {
    match path {
        QPath::Resolved(_, p) => if p.segments@.len() == 1 {
            Some(p.segments@[0])
        } else {
            None
        },
        QPath::TypeRelative(_, seg) => Some(seg),
    }
}

/// The only segment of a single-segment path, if the path has exactly one.
pub fn single_segment_path(path: &QPath) -> (r: Option<&PathSegment>)
    ensures
        match (r, spec_single_segment_path(*path)) {
            (Some(a), Some(b)) => *a == b,
            (None, None) => true,
            _ => false,
        },
{
    match path {
        QPath::Resolved(_, p) => if p.segments.len() == 1 {
            Some(&p.segments[0])
        } else {
            None
        },
        QPath::TypeRelative(_, seg) => Some(seg),
    }
}

/// The path of the standard result type's success variant, with the crate
/// segment dropped, as it is matched inside a single compilation unit.
pub open spec fn spec_result_ok_suffix() -> Seq<Name> {
    seq![SYM_RESULT_MOD, SYM_RESULT_TY, SYM_OK]
}

/// Build the success-variant path suffix.
pub fn result_ok_suffix() -> (v: Vec<Name>)
    ensures
        v@ == spec_result_ok_suffix(),
{
    let mut v: Vec<Name> = Vec::new();
    v.push(SYM_RESULT_MOD);
    v.push(SYM_RESULT_TY);
    v.push(SYM_OK);
    assert(v@ =~= spec_result_ok_suffix());
    v
}

/// The path of the standard result type's failure variant, with the crate
/// segment dropped, as it is matched inside a single compilation unit.
pub open spec fn spec_result_err_suffix() -> Seq<Name> {
    seq![SYM_RESULT_MOD, SYM_RESULT_TY, SYM_ERR]
}

/// Build the failure-variant path suffix.
pub fn result_err_suffix() -> (v: Vec<Name>)
    ensures
        v@ == spec_result_err_suffix(),
{
    let mut v: Vec<Name> = Vec::new();
    v.push(SYM_RESULT_MOD);
    v.push(SYM_RESULT_TY);
    v.push(SYM_ERR);
    assert(v@ =~= spec_result_err_suffix());
    v
}

} // verus!

