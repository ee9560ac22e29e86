//! Resolved (semantic) types, and the capability and type-equivalence
//! queries answered through the host's inference engine.
//!
//! A resolved type is a small closed shape: a generic parameter, a nominal
//! (struct/enum/union) type, a function item or function pointer with its
//! safety qualifier, or a reference wrapping another type with its region.
//!
//! The inference engine itself belongs to the host. Each query here opens a
//! context scoped to one syntactic scope, asks one question, and releases
//! the context before returning; the engine's answers are represented as
//! per-pass data (`InferEnv`): the obligations its solver can discharge,
//! the generic-parameter substitution of each scope, and the types its move
//! analysis reports trivially duplicable. Absence of a record answers a
//! query conservatively with "no".

use vstd::prelude::*;
use crate::hir::DefId;
use crate::resolve::{spec_match_def_path, match_def_path, Namespace};
use crate::syms::Name;

verus! {

/// A region (lifetime) parameter on a reference type: named while the host
/// still tracks it, or erased.
#[derive(Clone, Copy, PartialEq, Eq, Structural, Debug)]
pub enum Region {
    Named(u32),
    Erased,
}

/// A function's declared safety qualifier.
#[derive(Clone, Copy, PartialEq, Eq, Structural, Debug)]
pub enum Unsafety {
    Unsafe,
    Normal,
}

/// A resolved type.
pub enum Ty {
    /// A generic type parameter, by its index in the enclosing scope.
    Param(u32),
    /// A struct, enum or union type, by its definition.
    Adt(DefId),
    /// The type of one particular function item.
    FnDef(DefId, Unsafety),
    /// A function-pointer type.
    FnPtr(Unsafety),
    /// A reference to another type.
    Ref(Region, Box<Ty>),
}

/// Structural equality of two resolved types.
pub fn eq_ty(a: &Ty, b: &Ty) -> (r: bool)
    ensures
        r == (*a == *b),
    decreases *a,
{
    match (a, b) {
        (Ty::Param(x), Ty::Param(y)) => x == y,
        (Ty::Adt(d1), Ty::Adt(d2)) => d1 == d2,
        (Ty::FnDef(d1, u1), Ty::FnDef(d2, u2)) => d1 == d2 && u1 == u2,
        (Ty::FnPtr(u1), Ty::FnPtr(u2)) => u1 == u2,
        (Ty::Ref(r1, t1), Ty::Ref(r2, t2)) => r1 == r2 && eq_ty(t1, t2),
        _ => false,
    }
}

/// Copy a resolved type.
pub fn clone_ty(t: &Ty) -> (r: Ty)
    ensures
        r == *t,
    decreases *t,
{
    match t {
        Ty::Param(x) => Ty::Param(*x),
        Ty::Adt(d) => Ty::Adt(*d),
        Ty::FnDef(d, u) => Ty::FnDef(*d, *u),
        Ty::FnPtr(u) => Ty::FnPtr(*u),
        Ty::Ref(r, inner) => Ty::Ref(*r, Box::new(clone_ty(inner))),
    }
}

/// How many reference layers wrap the base type.
pub open spec fn spec_ref_depth(t: Ty) -> nat
    decreases t,
{
    match t {
        Ty::Ref(_, inner) => 1 + spec_ref_depth(*inner),
        _ => 0,
    }
}

/// The innermost non-reference type under any number of reference layers.
pub open spec fn spec_walk_ptrs_ty(t: Ty) -> Ty
    decreases t,
{
    match t {
        Ty::Ref(_, inner) => spec_walk_ptrs_ty(*inner),
        _ => t,
    }
}

/// Return the base type under any number of reference layers.
pub fn walk_ptrs_ty<'a>(ty: &'a Ty) -> (r: &'a Ty)
    ensures
        *r == spec_walk_ptrs_ty(*ty),
    decreases *ty,
{
    match ty {
        Ty::Ref(_, inner) => walk_ptrs_ty(inner),
        _ => ty,
    }
}

/// Return the base type under any number of reference layers, together with
/// the count of layers stripped.
pub fn walk_ptrs_ty_depth<'a>(ty: &'a Ty) -> (r: (&'a Ty, usize))
    requires
        spec_ref_depth(*ty) <= usize::MAX,
    ensures
        *r.0 == spec_walk_ptrs_ty(*ty),
        r.1 == spec_ref_depth(*ty),
    decreases *ty,
{
    match ty {
        Ty::Ref(_, inner) => {
            let (base, depth) = walk_ptrs_ty_depth(inner);
            (base, depth + 1)
        },
        _ => (ty, 0),
    }
}

/// Whether a type is a function item or function pointer declared unsafe.
pub open spec fn spec_type_is_unsafe_function(t: Ty) -> bool {
    match t {
        Ty::FnDef(_, u) => u == Unsafety::Unsafe,
        Ty::FnPtr(u) => u == Unsafety::Unsafe,
        _ => false,
    }
}

/// Return whether the given type is an unsafe function item or function
/// pointer. A purely structural test; no inference context is involved.
pub fn type_is_unsafe_function(ty: &Ty) -> (r: bool)
    ensures
        r == spec_type_is_unsafe_function(*ty),
{
    match ty {
        Ty::FnDef(_, u) => *u == Unsafety::Unsafe,
        Ty::FnPtr(u) => *u == Unsafety::Unsafe,
        _ => false,
    }
}

/// The type with every region parameter replaced by the erased region.
pub open spec fn spec_erase_regions(t: Ty) -> Ty
    decreases t,
{
    match t {
        Ty::Ref(_, inner) => Ty::Ref(Region::Erased, Box::new(spec_erase_regions(*inner))),
        _ => t,
    }
}

/// Erase every region parameter of a type.
pub fn erase_regions(t: &Ty) -> (r: Ty)
    ensures
        r == spec_erase_regions(*t),
    decreases *t,
{
    match t {
        Ty::Param(x) => Ty::Param(*x),
        Ty::Adt(d) => Ty::Adt(*d),
        Ty::FnDef(d, u) => Ty::FnDef(*d, *u),
        Ty::FnPtr(u) => Ty::FnPtr(*u),
        Ty::Ref(_, inner) => Ty::Ref(Region::Erased, Box::new(erase_regions(inner))),
    }
}

/// The type with every in-range generic parameter replaced by the
/// corresponding entry of the substitution; out-of-range parameters stay.
pub open spec fn spec_subst(t: Ty, substs: Seq<Ty>) -> Ty
    decreases t,
{
    match t {
        Ty::Param(i) => if i < substs.len() {
            substs[i as int]
        } else {
            t
        },
        Ty::Ref(r, inner) => Ty::Ref(r, Box::new(spec_subst(*inner, substs))),
        _ => t,
    }
}

/// Substituting with the empty substitution changes nothing.
pub proof fn lemma_subst_empty(t: Ty)
    ensures
        spec_subst(t, Seq::<Ty>::empty()) == t,
    decreases t,
{
    match t {
        Ty::Ref(_, inner) => {
            lemma_subst_empty(*inner);
        },
        _ => {},
    }
}

/// Apply a substitution to a type.
pub fn subst_ty(t: &Ty, substs: &Vec<Ty>) -> (r: Ty)
    ensures
        r == spec_subst(*t, substs@),
    decreases *t,
{
    match t {
        Ty::Param(i) => {
            if (*i as usize) < substs.len() {
                clone_ty(&substs[*i as usize])
            } else {
                Ty::Param(*i)
            }
        },
        Ty::Adt(d) => Ty::Adt(*d),
        Ty::FnDef(d, u) => Ty::FnDef(*d, *u),
        Ty::FnPtr(u) => Ty::FnPtr(*u),
        Ty::Ref(r, inner) => Ty::Ref(*r, Box::new(subst_ty(inner, substs))),
    }
}

/// One obligation the host's solver can discharge: within the given scope
/// (or globally, with no scope), the self type — recorded with regions
/// erased — implements the trait at the given type arguments.
pub struct ImplFact {
    pub scope: Option<u32>,
    pub self_ty: Ty,
    pub trait_id: DefId,
    pub params: Vec<Ty>,
}

/// The generic-parameter substitution the host records for one syntactic
/// scope.
pub struct ScopeSubst {
    pub scope: u32,
    pub substs: Vec<Ty>,
}

/// The host inference engine's answers for one pass, as data: discharged
/// obligations, per-scope substitutions, and the substituted types the move
/// analysis reports trivially duplicable. Each query opens a context bound
/// to one scope, consults these records, and releases the context before
/// returning; nothing is retained across calls.
pub struct InferEnv {
    pub impls: Vec<ImplFact>,
    pub scope_substs: Vec<ScopeSubst>,
    pub copy_types: Vec<Ty>,
}

/// The substitution recorded for a scope, searched from position `i`.
pub open spec fn spec_find_substs_from(list: Seq<ScopeSubst>, scope: u32, i: int) -> Option<
    Seq<Ty>,
>
    decreases list.len() - i,
    when 0 <= i <= list.len()
{
    if i >= list.len() {
        None
    } else if list[i].scope == scope {
        Some(list[i].substs@)
    } else {
        spec_find_substs_from(list, scope, i + 1)
    }
}

/// The free-generic-parameter substitution of a scope: the recorded one, or
/// the empty substitution for a scope without a record.
pub open spec fn spec_substs_of(env: &InferEnv, scope: u32) -> Seq<Ty> {
    match spec_find_substs_from(env.scope_substs@, scope, 0) {
        Some(s) => s,
        None => Seq::empty(),
    }
}

/// Find the substitution recorded for a scope.
fn find_substs<'a>(env: &'a InferEnv, scope: u32) -> (r: Option<&'a Vec<Ty>>)
    ensures
        match (r, spec_find_substs_from(env.scope_substs@, scope, 0)) {
            (Some(v), Some(s)) => v@ == s,
            (None, None) => true,
            _ => false,
        },
{
    let list = &env.scope_substs;
    let mut i: usize = 0;
    while i < list.len()
        invariant
            0 <= i <= list@.len(),
            list == &env.scope_substs,
            spec_find_substs_from(list@, scope, 0) == spec_find_substs_from(list@, scope, i as int),
        decreases list@.len() - i,
    {
        if list[i].scope == scope {
            return Some(&list[i].substs);
        }
        i = i + 1;
    }
    None
}

/// Apply the substitution of a scope to a type.
fn subst_in_scope(env: &InferEnv, t: &Ty, scope: u32) -> (r: Ty)
    ensures
        r == spec_subst(*t, spec_substs_of(env, scope)),
{
    match find_substs(env, scope) {
        Some(substs) => subst_ty(t, substs),
        None => {
            proof {
                lemma_subst_empty(*t);
            }
            clone_ty(t)
        },
    }
}

/// Whether one recorded obligation matches a query: same scope, same trait,
/// the region-erased self type, and exactly the queried type arguments.
pub open spec fn spec_fact_matches(
    fact: ImplFact,
    scope: Option<u32>,
    erased_ty: Ty,
    trait_id: DefId,
    params: Seq<Ty>,
) -> bool {
    fact.scope == scope && fact.trait_id == trait_id && fact.self_ty == erased_ty && fact.params@
        == params
}

/// Whether a type implements a trait at the given type arguments, asked of
/// an inference context opened for the given scope: true exactly when the
/// host's solver recorded a matching discharged obligation for the
/// region-erased type. An unrecorded obligation is conservatively "no".
pub open spec fn spec_implements_trait(
    env: &InferEnv,
    ty: Ty,
    trait_id: DefId,
    params: Seq<Ty>,
    scope: Option<u32>,
) -> bool {
    exists|i: int|
        0 <= i < env.impls@.len() && spec_fact_matches(
            env.impls@[i],
            scope,
            spec_erase_regions(ty),
            trait_id,
            params,
        )
}

/// Compare two type lists for equality.
fn eq_ty_vec(a: &Vec<Ty>, b: &Vec<Ty>) -> (r: bool)
    ensures
        r == (a@ == b@),
{
    if a.len() != b.len() {
        return false;
    }
    let mut i: usize = 0;
    while i < a.len()
        invariant
            0 <= i <= a@.len(),
            a@.len() == b@.len(),
            forall|j: int| 0 <= j < i ==> a@[j] == b@[j],
        decreases a@.len() - i,
    {
        if !eq_ty(&a[i], &b[i]) {
            return false;
        }
        i = i + 1;
    }
    assert(a@ =~= b@);
    true
}

/// Compare two optional scopes for equality.
fn eq_scope(a: Option<u32>, b: Option<u32>) -> (r: bool)
    ensures
        r == (a == b),
{
    match (a, b) {
        (Some(x), Some(y)) => x == y,
        (None, None) => true,
        _ => false,
    }
}

/// Check whether a type implements a trait at the given type arguments.
/// The type's regions are erased first; an inference context is opened for
/// `parent_node_id` (or for no scope), the obligation is evaluated
/// conservatively against the recorded answers, and the context is released
/// before returning.
pub fn implements_trait(
    env: &InferEnv,
    ty: &Ty,
    trait_id: DefId,
    ty_params: &Vec<Ty>,
    parent_node_id: Option<u32>,
) -> (r: bool)
    ensures
        r == spec_implements_trait(env, *ty, trait_id, ty_params@, parent_node_id),
{
    let erased = erase_regions(ty);
    let mut i: usize = 0;
    while i < env.impls.len()
        invariant
            0 <= i <= env.impls@.len(),
            erased == spec_erase_regions(*ty),
            forall|j: int|
                0 <= j < i ==> !spec_fact_matches(
                    env.impls@[j],
                    parent_node_id,
                    spec_erase_regions(*ty),
                    trait_id,
                    ty_params@,
                ),
        decreases env.impls@.len() - i,
    {
        let fact = &env.impls[i];
        if eq_scope(fact.scope, parent_node_id) && fact.trait_id == trait_id && eq_ty(
            &fact.self_ty,
            &erased,
        ) && eq_ty_vec(&fact.params, ty_params) {
            assert(spec_fact_matches(
                env.impls@[i as int],
                parent_node_id,
                spec_erase_regions(*ty),
                trait_id,
                ty_params@,
            ));
            return true;
        }
        i = i + 1;
    }
    false
}

/// Whether two types are the same within a scope: both have the scope's
/// substitution applied to their free generic parameters, and the results
/// are unified up to regions (regions are erased before comparison). This
/// answers region-polymorphic equality correctly, but may under- or
/// over-match when both sides share unrelated generic type parameters — an
/// accepted imprecision, inherited, not to be silently repaired.
pub open spec fn spec_same_tys(env: &InferEnv, a: Ty, b: Ty, scope: u32) -> bool {
    spec_erase_regions(spec_subst(a, spec_substs_of(env, scope))) == spec_erase_regions(
        spec_subst(b, spec_substs_of(env, scope)),
    )
}

/// Check whether two types are the same within the scope of
/// `parameter_item`, after substituting the scope's free generic
/// parameters into both.
pub fn same_tys(env: &InferEnv, a: &Ty, b: &Ty, parameter_item: u32) -> (r: bool)
    ensures
        r == spec_same_tys(env, *a, *b, parameter_item),
{
    let sa = subst_in_scope(env, a, parameter_item);
    let sb = subst_in_scope(env, b, parameter_item);
    let ea = erase_regions(&sa);
    let eb = erase_regions(&sb);
    eq_ty(&ea, &eb)
}

/// Whether a type is trivially duplicable within a scope: the scope's
/// substitution is applied, and the result must be among the types the
/// host's move analysis reports as not moving by default.
pub open spec fn spec_is_copy(env: &InferEnv, ty: Ty, scope: u32) -> bool {
    exists|i: int|
        0 <= i < env.copy_types@.len() && env.copy_types@[i] == spec_subst(
            ty,
            spec_substs_of(env, scope),
        )
}

/// Check whether a type, with the scope's generic parameters substituted,
/// does not require move semantics.
pub fn is_copy(env: &InferEnv, ty: &Ty, scope_id: u32) -> (r: bool)
    ensures
        r == spec_is_copy(env, *ty, scope_id),
{
    let substituted = subst_in_scope(env, ty, scope_id);
    let mut i: usize = 0;
    while i < env.copy_types.len()
        invariant
            0 <= i <= env.copy_types@.len(),
            substituted == spec_subst(*ty, spec_substs_of(env, scope_id)),
            forall|j: int|
                0 <= j < i ==> env.copy_types@[j] != spec_subst(*ty, spec_substs_of(env, scope_id)),
        decreases env.copy_types@.len() - i,
    {
        if eq_ty(&env.copy_types[i], &substituted) {
            return true;
        }
        i = i + 1;
    }
    false
}

/// Whether a type is a nominal (struct/enum/union) type whose definition's
/// absolute path matches the given segments exactly.
pub open spec fn spec_match_type(ns: &Namespace, ty: Ty, path: Seq<Name>) -> bool {
    match ty {
        Ty::Adt(did) => spec_match_def_path(ns, did, path),
        _ => false,
    }
}

/// Check if a type is a struct, enum or union with the given absolute path.
pub fn match_type(ns: &Namespace, ty: &Ty, path: &Vec<Name>) -> (r: bool)
    ensures
        r == spec_match_type(ns, *ty, path@),
{
    match ty {
        Ty::Adt(did) => match_def_path(ns, *did, path),
        _ => false,
    }
}

} // verus!
