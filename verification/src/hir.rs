//! The engine's model of the host compiler's typed syntax tree: definition
//! identities, qualified paths, expressions and patterns.
//!
//! Nodes are immutable values owned by the IR snapshot the host hands each
//! analysis pass. Every node that resolution may be asked about carries the
//! host-assigned node identifier it was recorded under.

use vstd::prelude::*;
use crate::span::Span;
use crate::syms::Name;

verus! {

/// A globally unique key for one declared item: the compilation unit that
/// declares it and an index within that unit. Two identities are equal
/// exactly when both fields are equal.
#[derive(Clone, Copy, PartialEq, Eq, Structural, Debug)]
pub struct DefId {
    /// The compilation unit the item belongs to.
    pub krate: u32,
    /// The item's index within its compilation unit.
    pub index: u32,
}

/// The index that names a compilation unit's root module within the unit.
pub const CRATE_DEF_INDEX: u32 = 0;

/// What a name resolved to: the kind of the definition, with the
/// definition's identity where the kind has one. Labels, primitive types,
/// the inferred self type and resolution errors carry no identity.
#[derive(Clone, Copy, PartialEq, Eq, Structural, Debug)]
pub enum Def {
    Fn(DefId),
    Mod(DefId),
    Static(DefId),
    Variant(DefId),
    VariantCtor(DefId),
    Enum(DefId),
    TyAlias(DefId),
    AssociatedTy(DefId),
    TyParam(DefId),
    Struct(DefId),
    StructCtor(DefId),
    Union(DefId),
    Trait(DefId),
    Method(DefId),
    Const(DefId),
    AssociatedConst(DefId),
    Local(DefId),
    Upvar(DefId),
    Macro(DefId),
    Label,
    PrimTy,
    SelfTy,
    Error,
}

/// The identity a definition carries, if its kind has one.
pub open spec fn spec_opt_def_id(def: Def) -> Option<DefId> {
    match def {
        Def::Fn(id) => Some(id),
        Def::Mod(id) => Some(id),
        Def::Static(id) => Some(id),
        Def::Variant(id) => Some(id),
        Def::VariantCtor(id) => Some(id),
        Def::Enum(id) => Some(id),
        Def::TyAlias(id) => Some(id),
        Def::AssociatedTy(id) => Some(id),
        Def::TyParam(id) => Some(id),
        Def::Struct(id) => Some(id),
        Def::StructCtor(id) => Some(id),
        Def::Union(id) => Some(id),
        Def::Trait(id) => Some(id),
        Def::Method(id) => Some(id),
        Def::Const(id) => Some(id),
        Def::AssociatedConst(id) => Some(id),
        Def::Local(id) => Some(id),
        Def::Upvar(id) => Some(id),
        Def::Macro(id) => Some(id),
        Def::Label => None,
        Def::PrimTy => None,
        Def::SelfTy => None,
        Def::Error => None,
    }
}

/// The identity a definition carries, if its kind has one.
pub fn opt_def_id(def: Def) -> (r: Option<DefId>)
    ensures
        r == spec_opt_def_id(def),
{
    match def {
        Def::Fn(id) => Some(id),
        Def::Mod(id) => Some(id),
        Def::Static(id) => Some(id),
        Def::Variant(id) => Some(id),
        Def::VariantCtor(id) => Some(id),
        Def::Enum(id) => Some(id),
        Def::TyAlias(id) => Some(id),
        Def::AssociatedTy(id) => Some(id),
        Def::TyParam(id) => Some(id),
        Def::Struct(id) => Some(id),
        Def::StructCtor(id) => Some(id),
        Def::Union(id) => Some(id),
        Def::Trait(id) => Some(id),
        Def::Method(id) => Some(id),
        Def::Const(id) => Some(id),
        Def::AssociatedConst(id) => Some(id),
        Def::Local(id) => Some(id),
        Def::Upvar(id) => Some(id),
        Def::Macro(id) => Some(id),
        Def::Label => None,
        Def::PrimTy => None,
        Def::SelfTy => None,
        Def::Error => None,
    }
}

/// One segment of a path, as written.
#[derive(Clone, Copy, PartialEq, Eq, Structural, Debug)]
pub struct PathSegment {
    pub name: Name,
}

/// A resolved path: its written segments and the definition the whole path
/// resolved to.
pub struct Path {
    pub segments: Vec<PathSegment>,
    pub def: Def,
}

/// A qualified path: either fully resolved (with an optional explicit self
/// type), or relative to a base type with resolution of the final segment
/// deferred to the typeck tables.
pub enum QPath {
    Resolved(Option<Box<Ty>>, Path),
    TypeRelative(Box<Ty>, PathSegment),
}

/// A type as written in the source.
pub struct Ty {
    pub id: u32,
    pub node: TyKind,
}

/// The shapes of written types the engine distinguishes: a plain path type,
/// and everything else.
pub enum TyKind {
    Path(QPath),
    Other,
}

/// An integer literal's value, or some other kind of literal.
#[derive(Clone, Copy, PartialEq, Eq, Structural, Debug)]
pub enum LitKind {
    Int(u128),
    Other,
}

/// A literal with its location.
#[derive(Clone, Copy, PartialEq, Eq, Structural, Debug)]
pub struct Lit {
    pub node: LitKind,
    pub span: Span,
}

/// A statement. Its content never matters to the engine; only its presence
/// inside a block does.
pub struct Stmt {
    pub span: Span,
}

/// A braced block: its statements and its optional trailing expression.
pub struct Block {
    pub stmts: Vec<Stmt>,
    pub expr: Option<Box<Expr>>,
}

/// Why a match expression exists: written by the user, or produced by the
/// host's fallible-propagation desugaring.
#[derive(Clone, Copy, PartialEq, Eq, Structural, Debug)]
pub enum MatchSource {
    Normal,
    TryDesugar,
}

/// One arm of a match: its patterns, optional guard, and body.
pub struct Arm {
    pub pats: Vec<Pat>,
    pub guard: Option<Box<Expr>>,
    pub body: Box<Expr>,
}

/// The expression shapes the engine distinguishes. A method call stores its
/// receiver as the first argument.
pub enum ExprKind {
    MethodCall(PathSegment, Vec<Expr>),
    Block(Box<Block>),
    Lit(Lit),
    Match(Box<Expr>, Vec<Arm>, MatchSource),
    Path(QPath),
    Other,
}

/// An expression node.
pub struct Expr {
    pub id: u32,
    pub span: Span,
    pub node: ExprKind,
}

/// One named field inside a struct pattern.
pub struct FieldPat {
    pub name: Name,
    pub pat: Pat,
}

/// The pattern shapes the refutability analysis distinguishes.
pub enum PatKind {
    /// The wildcard pattern.
    Wild,
    /// A plain binding: the binding's own definition identity, its name, and
    /// an optional bound sub-pattern.
    Binding(DefId, Name, Option<Box<Pat>>),
    /// A boxed sub-pattern.
    Boxed(Box<Pat>),
    /// A reference to a sub-pattern.
    Ref(Box<Pat>),
    /// A literal value.
    Lit(Box<Expr>),
    /// A numeric range between two literal endpoints.
    Range(Box<Expr>, Box<Expr>),
    /// A bare qualified path (a unit variant, constant, or unit struct).
    Path(QPath),
    /// A tuple, with the position of a `..` gap if one was written.
    Tuple(Vec<Pat>, Option<usize>),
    /// A struct with named field patterns; the flag records a trailing `..`.
    Struct(QPath, Vec<FieldPat>, bool),
    /// A tuple struct or variant constructor, with the position of a `..`
    /// gap if one was written.
    TupleStruct(QPath, Vec<Pat>, Option<usize>),
    /// A slice: fixed head patterns, an optional variable-length middle, and
    /// fixed tail patterns.
    Slice(Vec<Pat>, Option<Box<Pat>>, Vec<Pat>),
}

/// A pattern node.
pub struct Pat {
    pub id: u32,
    pub node: PatKind,
}

/// One formal argument of a function body: the pattern that binds it.
pub struct Arg {
    pub pat: Pat,
}

/// A function declaration's header: its declared inputs.
pub struct FnDecl {
    pub inputs: Vec<Ty>,
}

/// A function's body: one bound argument per declared input.
pub struct Body {
    pub arguments: Vec<Arg>,
}

/// An attribute attached to an item.
#[derive(Clone, Copy, PartialEq, Eq, Structural, Debug)]
pub struct Attribute {
    pub name: Name,
}

/// Whether any attribute in the list is the marker that derives put on the
/// implementations they generate.
pub open spec fn spec_is_automatically_derived(attrs: Seq<Attribute>) -> bool {
    exists|i: int|
        0 <= i < attrs.len() && attrs[i].name == crate::syms::SYM_AUTOMATICALLY_DERIVED
}

/// Checks for the marker attribute that all derive-generated
/// implementations carry.
pub fn is_automatically_derived(attrs: &Vec<Attribute>) -> (r: bool)
    ensures
        r == spec_is_automatically_derived(attrs@),
{
    let mut i: usize = 0;
    while i < attrs.len()
        invariant
            0 <= i <= attrs@.len(),
            forall|j: int|
                0 <= j < i ==> attrs@[j].name != crate::syms::SYM_AUTOMATICALLY_DERIVED,
        decreases attrs@.len() - i,
    {
        if attrs[i].name == crate::syms::SYM_AUTOMATICALLY_DERIVED {
            return true;
        }
        i = i + 1;
    }
    false
}

} // verus!
