//! Pattern refutability analysis.
//!
//! Refutability is a pure function of a pattern's shape plus, for
//! path-shaped nodes, whether the named definition is an enum variant —
//! looked up through the typeck tables, since an identical written path may
//! name a variant in one scope and a constant in another.

use vstd::prelude::*;
use crate::hir::{Def, FieldPat, Pat, PatKind, QPath};
use crate::resolve::{resolve_node, spec_qpath_def, Tables};

verus! {

/// Whether the definition a qualified path names at a node is an enum
/// variant (plain or constructor).
pub open spec fn spec_is_enum_variant(tables: &Tables, qpath: QPath, id: u32) -> bool {
    match spec_qpath_def(tables, qpath, id) {
        Def::Variant(_) => true,
        Def::VariantCtor(_) => true,
        _ => false,
    }
}

/// Check whether a qualified path names an enum variant at a node.
fn is_enum_variant(tables: &Tables, qpath: &QPath, id: u32) -> (r: bool)
    ensures
        r == spec_is_enum_variant(tables, *qpath, id),
{
    match resolve_node(tables, qpath, id) {
        Def::Variant(_) => true,
        Def::VariantCtor(_) => true,
        _ => false,
    }
}

/// Whether a pattern may fail to match some value of its type. Wildcards
/// and bindings always match; a boxed or referenced pattern is as refutable
/// as its sub-pattern; literals and ranges are refutable; a path is
/// refutable exactly when it names an enum variant; a tuple, struct, tuple
/// struct or slice is refutable when any sub-pattern is, a struct or tuple
/// struct also when it itself names an enum variant.
pub open spec fn spec_is_refutable(tables: &Tables, pat: Pat) -> bool
    decreases pat,
{
    match pat.node {
        PatKind::Wild => false,
        PatKind::Binding(_, _, _) => false,
        PatKind::Boxed(sub) => spec_is_refutable(tables, *sub),
        PatKind::Ref(sub) => spec_is_refutable(tables, *sub),
        PatKind::Lit(_) => true,
        PatKind::Range(_, _) => true,
        PatKind::Path(qpath) => spec_is_enum_variant(tables, qpath, pat.id),
        PatKind::Tuple(pats, _) => spec_any_refutable(tables, pats@),
        PatKind::Struct(qpath, fields, _) => spec_is_enum_variant(tables, qpath, pat.id)
            || spec_any_field_refutable(tables, fields@),
        PatKind::TupleStruct(qpath, pats, _) => spec_is_enum_variant(tables, qpath, pat.id)
            || spec_any_refutable(tables, pats@),
        PatKind::Slice(head, middle, tail) => spec_any_refutable(tables, head@) || (
        middle matches Some(m) && spec_is_refutable(tables, *m)) || spec_any_refutable(
            tables,
            tail@,
        ),
    }
}

/// Whether any pattern in the sequence is refutable.
pub open spec fn spec_any_refutable(tables: &Tables, pats: Seq<Pat>) -> bool
    decreases pats,
{
    exists|i: int| 0 <= i < pats.len() && spec_is_refutable(tables, pats[i])
}

/// Whether any field pattern in the sequence is refutable.
pub open spec fn spec_any_field_refutable(tables: &Tables, fields: Seq<FieldPat>) -> bool
    decreases fields,
{
    exists|i: int| 0 <= i < fields.len() && spec_is_refutable(tables, fields[i].pat)
}

/// Check whether any pattern in the list is refutable.
fn are_refutable(tables: &Tables, pats: &Vec<Pat>) -> (r: bool)
    ensures
        r == spec_any_refutable(tables, pats@),
    decreases *pats,
{
    let mut i: usize = 0;
    while i < pats.len()
        invariant
            0 <= i <= pats@.len(),
            forall|j: int| 0 <= j < i ==> !spec_is_refutable(tables, pats@[j]),
        decreases pats@.len() - i,
    {
        if is_refutable(tables, &pats[i]) {
            assert(spec_any_refutable(tables, pats@));
            return true;
        }
        i = i + 1;
    }
    false
}

/// Check whether any field pattern in the list is refutable.
fn are_fields_refutable(tables: &Tables, fields: &Vec<FieldPat>) -> (r: bool)
    ensures
        r == spec_any_field_refutable(tables, fields@),
    decreases *fields,
{
    let mut i: usize = 0;
    while i < fields.len()
        invariant
            0 <= i <= fields@.len(),
            forall|j: int| 0 <= j < i ==> !spec_is_refutable(tables, fields@[j].pat),
        decreases fields@.len() - i,
    {
        if is_refutable(tables, &fields[i].pat) {
            assert(spec_any_field_refutable(tables, fields@));
            return true;
        }
        i = i + 1;
    }
    false
}

/// Return whether a pattern is refutable.
pub fn is_refutable(tables: &Tables, pat: &Pat) -> (r: bool)
    ensures
        r == spec_is_refutable(tables, *pat),
    decreases *pat,
{
    match &pat.node {
        PatKind::Wild => false,
        PatKind::Binding(_, _, _) => false,
        PatKind::Boxed(sub) => is_refutable(tables, sub),
        PatKind::Ref(sub) => is_refutable(tables, sub),
        PatKind::Lit(_) => true,
        PatKind::Range(_, _) => true,
        PatKind::Path(qpath) => is_enum_variant(tables, qpath, pat.id),
        PatKind::Tuple(pats, _) => are_refutable(tables, pats),
        PatKind::Struct(qpath, fields, _) => {
            if is_enum_variant(tables, qpath, pat.id) {
                true
            } else {
                are_fields_refutable(tables, fields)
            }
        },
        PatKind::TupleStruct(qpath, pats, _) => {
            if is_enum_variant(tables, qpath, pat.id) {
                true
            } else {
                are_refutable(tables, pats)
            }
        },
        PatKind::Slice(head, middle, tail) => {
            if are_refutable(tables, head) {
                true
            } else {
                let mid = match middle {
                    Some(m) => is_refutable(tables, m),
                    None => false,
                };
                if mid {
                    true
                } else {
                    are_refutable(tables, tail)
                }
            }
        },
    }
}

/// Whether a pattern is built from wildcard and binding leaves alone,
/// nested only through boxes, references, tuples, slices, and structs or
/// tuple structs whose own path does not name an enum variant.
pub open spec fn spec_wild_binding_only(tables: &Tables, pat: Pat) -> bool
    decreases pat,
{
    match pat.node {
        PatKind::Wild => true,
        PatKind::Binding(_, _, sub) => match sub {
            None => true,
            Some(s) => spec_wild_binding_only(tables, *s),
        },
        PatKind::Boxed(sub) => spec_wild_binding_only(tables, *sub),
        PatKind::Ref(sub) => spec_wild_binding_only(tables, *sub),
        PatKind::Lit(_) => false,
        PatKind::Range(_, _) => false,
        PatKind::Path(_) => false,
        PatKind::Tuple(pats, _) => spec_all_wild_binding(tables, pats@),
        PatKind::Struct(qpath, fields, _) => !spec_is_enum_variant(tables, qpath, pat.id)
            && spec_all_fields_wild_binding(tables, fields@),
        PatKind::TupleStruct(qpath, pats, _) => !spec_is_enum_variant(tables, qpath, pat.id)
            && spec_all_wild_binding(tables, pats@),
        PatKind::Slice(head, middle, tail) => spec_all_wild_binding(tables, head@) && (
        middle matches Some(m) ==> spec_wild_binding_only(tables, *m)) && spec_all_wild_binding(
            tables,
            tail@,
        ),
    }
}

/// Whether every pattern in the sequence is built from wildcard and binding
/// leaves alone.
pub open spec fn spec_all_wild_binding(tables: &Tables, pats: Seq<Pat>) -> bool
    decreases pats,
{
    forall|i: int| 0 <= i < pats.len() ==> spec_wild_binding_only(tables, pats[i])
}

/// Whether every field pattern in the sequence is built from wildcard and
/// binding leaves alone.
pub open spec fn spec_all_fields_wild_binding(tables: &Tables, fields: Seq<FieldPat>) -> bool
    decreases fields,
{
    forall|i: int| 0 <= i < fields.len() ==> spec_wild_binding_only(tables, fields[i].pat)
}

/// A pattern built from wildcard and binding leaves alone is irrefutable,
/// at any nesting depth in tuples, structs and slices — provided no struct
/// or tuple-struct node on the way names an enum variant, since such a
/// pattern is refutable by its path alone.
pub proof fn lemma_wild_binding_irrefutable(tables: &Tables, pat: Pat)
    requires
        spec_wild_binding_only(tables, pat),
    ensures
        !spec_is_refutable(tables, pat),
    decreases pat,
{
    reveal_with_fuel(spec_wild_binding_only, 2);
    reveal_with_fuel(spec_is_refutable, 2);
    match pat.node {
        PatKind::Boxed(sub) => {
            lemma_wild_binding_irrefutable(tables, *sub);
        },
        PatKind::Ref(sub) => {
            lemma_wild_binding_irrefutable(tables, *sub);
        },
        PatKind::Tuple(pats, _) => {
            assert forall|i: int|
                0 <= i < pats@.len() implies !spec_is_refutable(tables, pats@[i]) by {
                lemma_wild_binding_irrefutable(tables, pats@[i]);
            }
        },
        PatKind::Struct(_, fields, _) => {
            assert forall|i: int|
                0 <= i < fields@.len() implies !spec_is_refutable(tables, fields@[i].pat) by {
                lemma_wild_binding_irrefutable(tables, fields@[i].pat);
            }
        },
        PatKind::TupleStruct(_, pats, _) => {
            assert forall|i: int|
                0 <= i < pats@.len() implies !spec_is_refutable(tables, pats@[i]) by {
                lemma_wild_binding_irrefutable(tables, pats@[i]);
            }
        },
        PatKind::Slice(head, middle, tail) => {
            assert forall|i: int|
                0 <= i < head@.len() implies !spec_is_refutable(tables, head@[i]) by {
                lemma_wild_binding_irrefutable(tables, head@[i]);
            }
            match middle {
                Some(m) => {
                    lemma_wild_binding_irrefutable(tables, *m);
                },
                None => {},
            }
            assert forall|i: int|
                0 <= i < tail@.len() implies !spec_is_refutable(tables, tail@[i]) by {
                lemma_wild_binding_irrefutable(tables, tail@[i]);
            }
        },
        _ => {},
    }
}

/// Whether the refutability analysis can reach a literal or range leaf in
/// the pattern. Sub-patterns bound by a binding do not count: the analysis
/// never descends below a binding, which matches unconditionally.
pub open spec fn spec_has_lit_or_range(pat: Pat) -> bool
    decreases pat,
{
    match pat.node {
        PatKind::Wild => false,
        PatKind::Binding(_, _, _) => false,
        PatKind::Boxed(sub) => spec_has_lit_or_range(*sub),
        PatKind::Ref(sub) => spec_has_lit_or_range(*sub),
        PatKind::Lit(_) => true,
        PatKind::Range(_, _) => true,
        PatKind::Path(_) => false,
        PatKind::Tuple(pats, _) => spec_seq_has_lit_or_range(pats@),
        PatKind::Struct(_, fields, _) => spec_fields_have_lit_or_range(fields@),
        PatKind::TupleStruct(_, pats, _) => spec_seq_has_lit_or_range(pats@),
        PatKind::Slice(head, middle, tail) => spec_seq_has_lit_or_range(head@) || (
        middle matches Some(m) && spec_has_lit_or_range(*m)) || spec_seq_has_lit_or_range(tail@),
    }
}

/// Whether any pattern in the sequence holds a reachable literal or range
/// leaf.
pub open spec fn spec_seq_has_lit_or_range(pats: Seq<Pat>) -> bool
    decreases pats,
{
    exists|i: int| 0 <= i < pats.len() && spec_has_lit_or_range(pats[i])
}

/// Whether any field pattern in the sequence holds a reachable literal or
/// range leaf.
pub open spec fn spec_fields_have_lit_or_range(fields: Seq<FieldPat>) -> bool
    decreases fields,
{
    exists|i: int| 0 <= i < fields.len() && spec_has_lit_or_range(fields[i].pat)
}

/// A pattern in which the analysis reaches a literal or range leaf is
/// refutable, whatever surrounds the leaf.
pub proof fn lemma_lit_or_range_refutable(tables: &Tables, pat: Pat)
    requires
        spec_has_lit_or_range(pat),
    ensures
        spec_is_refutable(tables, pat),
    decreases pat,
{
    reveal_with_fuel(spec_has_lit_or_range, 2);
    reveal_with_fuel(spec_is_refutable, 2);
    match pat.node {
        PatKind::Boxed(sub) => {
            lemma_lit_or_range_refutable(tables, *sub);
        },
        PatKind::Ref(sub) => {
            lemma_lit_or_range_refutable(tables, *sub);
        },
        PatKind::Tuple(pats, _) => {
            let i = choose|i: int| 0 <= i < pats@.len() && spec_has_lit_or_range(pats@[i]);
            lemma_lit_or_range_refutable(tables, pats@[i]);
            assert(spec_any_refutable(tables, pats@));
        },
        PatKind::Struct(_, fields, _) => {
            if !spec_is_enum_variant(tables, pat.node->Struct_0, pat.id) {
                let i = choose|i: int|
                    0 <= i < fields@.len() && spec_has_lit_or_range(fields@[i].pat);
                lemma_lit_or_range_refutable(tables, fields@[i].pat);
                assert(spec_any_field_refutable(tables, fields@));
            }
        },
        PatKind::TupleStruct(_, pats, _) => {
            if !spec_is_enum_variant(tables, pat.node->TupleStruct_0, pat.id) {
                let i = choose|i: int| 0 <= i < pats@.len() && spec_has_lit_or_range(pats@[i]);
                lemma_lit_or_range_refutable(tables, pats@[i]);
                assert(spec_any_refutable(tables, pats@));
            }
        },
        PatKind::Slice(head, middle, tail) => {
            if spec_seq_has_lit_or_range(head@) {
                let i = choose|i: int| 0 <= i < head@.len() && spec_has_lit_or_range(head@[i]);
                lemma_lit_or_range_refutable(tables, head@[i]);
                assert(spec_any_refutable(tables, head@));
            } else if spec_seq_has_lit_or_range(tail@) {
                let i = choose|i: int| 0 <= i < tail@.len() && spec_has_lit_or_range(tail@[i]);
                lemma_lit_or_range_refutable(tables, tail@[i]);
                assert(spec_any_refutable(tables, tail@));
            } else {
                match middle {
                    Some(m) => {
                        lemma_lit_or_range_refutable(tables, *m);
                    },
                    None => {},
                }
            }
        },
        _ => {},
    }
}

} // verus!
