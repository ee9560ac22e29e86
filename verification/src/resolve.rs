//! Definition resolution through the host's global namespace, and lookups in
//! the per-body typeck tables.
//!
//! The host's namespace-enumeration capability is represented as data built
//! once per pass: the linked compilation units by number, each definition's
//! direct named children, the absolute path the host prints for a
//! definition, and the impl or trait that owns an item. Every query walks
//! these tables afresh; nothing is cached between calls, and where a key is
//! recorded twice the first record wins.

use vstd::prelude::*;
use crate::hir::{spec_opt_def_id, opt_def_id, Def, DefId, Expr, QPath, CRATE_DEF_INDEX};
use crate::syms::Name;

verus! {

/// One named child of a definition, as the host enumerates them.
#[derive(Clone, Copy, PartialEq, Eq, Structural, Debug)]
pub struct ChildItem {
    pub name: Name,
    pub def: Def,
}

/// The direct children the host enumerates for one definition.
pub struct DefChildren {
    pub parent: DefId,
    pub children: Vec<ChildItem>,
}

/// The absolute path the host prints for one definition.
pub struct DefPath {
    pub def_id: DefId,
    pub names: Vec<Name>,
}

/// An ownership link from an item to the impl or trait that declares it.
#[derive(Clone, Copy, PartialEq, Eq, Structural, Debug)]
pub struct DefLink {
    pub item: DefId,
    pub owner: DefId,
}

/// The host's namespace graph for one analysis pass.
pub struct Namespace {
    /// The linked compilation units; a unit's number is its position here.
    pub crates: Vec<Name>,
    /// Each definition's direct named children.
    pub children: Vec<DefChildren>,
    /// The absolute path the host prints for a definition.
    pub def_paths: Vec<DefPath>,
    /// For a method, the impl that declares it.
    pub impl_owners: Vec<DefLink>,
    /// For an associated item, the trait that declares it.
    pub trait_owners: Vec<DefLink>,
}

/// A resolution the typeck tables recorded for a type-relative path at one
/// node.
#[derive(Clone, Copy, PartialEq, Eq, Structural, Debug)]
pub struct TypeDependentDef {
    pub node: u32,
    pub def: Def,
}

/// The callee the typeck tables recorded for a method call at one node.
#[derive(Clone, Copy, PartialEq, Eq, Structural, Debug)]
pub struct MethodCallee {
    pub node: u32,
    pub def_id: DefId,
}

/// The per-body typeck tables the host hands the engine.
pub struct Tables {
    /// Resolutions of type-relative paths, keyed by node.
    pub type_dependent_defs: Vec<TypeDependentDef>,
    /// Method-call callees, keyed by the call expression's node.
    pub method_map: Vec<MethodCallee>,
    /// Nodes that carry an implicit adjustment (autoderef, coercion).
    pub adjustments: Vec<u32>,
}

impl Namespace {
    /// A namespace is well formed when its compilation-unit numbers fit the
    /// 32-bit unit field of a definition identity.
    pub open spec fn wf(&self) -> bool {
        self.crates@.len() <= u32::MAX
    }
}

/// The position of the first compilation unit with the given name, searched
/// from position `i`.
pub open spec fn spec_find_crate_from(crates: Seq<Name>, name: Name, i: int) -> Option<int>
    decreases crates.len() - i,
    when 0 <= i <= crates.len()
{
    if i >= crates.len() {
        None
    } else if crates[i] == name {
        Some(i)
    } else {
        spec_find_crate_from(crates, name, i + 1)
    }
}

/// The number of the compilation unit with the given name, if one is linked.
pub open spec fn spec_crate_num(crates: Seq<Name>, name: Name) -> Option<int> {
    spec_find_crate_from(crates, name, 0)
}

/// Find the number of the compilation unit with the given name.
fn find_crate(crates: &Vec<Name>, name: Name) -> (r: Option<usize>)
    ensures
        match (r, spec_crate_num(crates@, name)) {
            (Some(i), Some(j)) => i == j,
            (None, None) => true,
            _ => false,
        },
{
    let mut i: usize = 0;
    while i < crates.len()
        invariant
            0 <= i <= crates@.len(),
            spec_crate_num(crates@, name) == spec_find_crate_from(crates@, name, i as int),
        decreases crates@.len() - i,
    {
        if crates[i] == name {
            return Some(i);
        }
        i = i + 1;
    }
    None
}

/// The children list recorded for a definition, searched from position `i`;
/// the first record for the identity wins.
pub open spec fn spec_find_children_from(lists: Seq<DefChildren>, id: DefId, i: int) -> Option<
    Seq<ChildItem>,
>
    decreases lists.len() - i,
    when 0 <= i <= lists.len()
{
    if i >= lists.len() {
        None
    } else if lists[i].parent == id {
        Some(lists[i].children@)
    } else {
        spec_find_children_from(lists, id, i + 1)
    }
}

/// The direct named children the host enumerates for a definition: the
/// recorded list, or nothing for a definition with no record.
pub open spec fn spec_item_children(ns: &Namespace, id: DefId) -> Option<Seq<ChildItem>> {
    spec_find_children_from(ns.children@, id, 0)
}

/// The children to descend through for a definition: its recorded children,
/// or none for a definition without a record.
pub open spec fn spec_children_seq(ns: &Namespace, id: DefId) -> Seq<ChildItem> {
    match spec_item_children(ns, id) {
        Some(c) => c,
        None => Seq::empty(),
    }
}

/// Enumerate the direct named children of a definition.
pub fn item_children<'a>(ns: &'a Namespace, id: DefId) -> (r: Option<&'a Vec<ChildItem>>)
    ensures
        match (r, spec_item_children(ns, id)) {
            (Some(v), Some(s)) => v@ == s,
            (None, None) => true,
            _ => false,
        },
{
    let mut i: usize = 0;
    while i < ns.children.len()
        invariant
            0 <= i <= ns.children@.len(),
            spec_item_children(ns, id) == spec_find_children_from(ns.children@, id, i as int),
        decreases ns.children@.len() - i,
    {
        if ns.children[i].parent == id {
            return Some(&ns.children[i].children);
        }
        i = i + 1;
    }
    None
}

/// The first child with the given name, searched from position `i`.
pub open spec fn spec_find_child_from(children: Seq<ChildItem>, name: Name, i: int) -> Option<
    ChildItem,
>
    decreases children.len() - i,
    when 0 <= i <= children.len()
{
    if i >= children.len() {
        None
    } else if children[i].name == name {
        Some(children[i])
    } else {
        spec_find_child_from(children, name, i + 1)
    }
}

/// The first child with the given name, if any.
pub open spec fn spec_find_child(children: Seq<ChildItem>, name: Name) -> Option<ChildItem> {
    spec_find_child_from(children, name, 0)
}

/// Find the first child with the given name.
fn find_child(children: &Vec<ChildItem>, name: Name) -> (r: Option<ChildItem>)
    ensures
        r == spec_find_child(children@, name),
{
    let mut i: usize = 0;
    while i < children.len()
        invariant
            0 <= i <= children@.len(),
            spec_find_child(children@, name) == spec_find_child_from(children@, name, i as int),
        decreases children@.len() - i,
    {
        if children[i].name == name {
            return Some(children[i]);
        }
        i = i + 1;
    }
    None
}

/// Resolution of the remaining segments against a current children list:
/// each segment selects the first child of that name; the final segment
/// yields that child's definition, an earlier one descends into the child's
/// enumerated children. Any segment without a matching child — and a
/// descent through a definition that has no identity — ends in absence, as
/// does an exhausted segment list.
pub open spec fn spec_resolve_rest(ns: &Namespace, children: Seq<ChildItem>, segs: Seq<Name>) -> Option<
    Def,
>
    decreases segs.len(),
{
    if segs.len() == 0 {
        None
    } else {
        match spec_find_child(children, segs[0]) {
            None => None,
            Some(item) => if segs.len() == 1 {
                Some(item.def)
            } else {
                match spec_opt_def_id(item.def) {
                    Some(id) => spec_resolve_rest(ns, spec_children_seq(ns, id), segs.drop_first()),
                    None => None,
                }
            },
        }
    }
}

/// The definition an absolute path names: the first segment selects a
/// compilation unit by name, the remaining segments descend through the
/// enumerated children of that unit's root. A path of a single segment
/// names no item and resolves to nothing.
pub open spec fn spec_path_to_def(ns: &Namespace, path: Seq<Name>) -> Option<Def>
    recommends
        path.len() >= 1,
{
    match spec_crate_num(ns.crates@, path[0]) {
        None => None,
        Some(k) => spec_resolve_rest(
            ns,
            spec_children_seq(ns, DefId { krate: k as u32, index: CRATE_DEF_INDEX }),
            path.drop_first(),
        ),
    }
}

/// Resolve `path[pos..]` against a current children list.
fn resolve_rest(ns: &Namespace, children: &Vec<ChildItem>, path: &Vec<Name>, pos: usize) -> (r:
    Option<Def>)
    requires
        pos <= path@.len(),
    ensures
        r == spec_resolve_rest(ns, children@, path@.skip(pos as int)),
    decreases path@.len() - pos,
{
    let ghost segs = path@.skip(pos as int);
    if pos == path.len() {
        return None;
    }
    assert(segs[0] == path@[pos as int]);
    match find_child(children, path[pos]) {
        None => None,
        Some(item) => {
            if pos + 1 == path.len() {
                Some(item.def)
            } else {
                proof {
                    assert(segs.drop_first() =~= path@.skip(pos + 1 as int));
                }
                match opt_def_id(item.def) {
                    Some(id) => {
                        match item_children(ns, id) {
                            Some(next) => resolve_rest(ns, next, path, pos + 1),
                            None => {
                                proof {
                                    reveal_with_fuel(spec_resolve_rest, 2);
                                    assert(spec_children_seq(ns, id) =~= Seq::<ChildItem>::empty());
                                    assert(spec_find_child(Seq::<ChildItem>::empty(), segs.drop_first()[0])
                                        == None::<ChildItem>);
                                }
                                None
                            },
                        }
                    },
                    None => None,
                }
            }
        },
    }
}

/// Resolve an absolute path — compilation unit first, then nested item
/// names — to the definition it names. Absence at any step (unknown unit,
/// missing child, or a path that stops at the unit itself) propagates as
/// absence.
pub fn path_to_def(ns: &Namespace, path: &Vec<Name>) -> (r: Option<Def>)
    requires
        path@.len() >= 1,
        ns.wf(),
    ensures
        r == spec_path_to_def(ns, path@),
{
    match find_crate(&ns.crates, path[0]) {
        None => None,
        Some(i) => {
            let root = DefId { krate: i as u32, index: CRATE_DEF_INDEX };
            match item_children(ns, root) {
                Some(children) => resolve_rest(ns, children, path, 1),
                None => {
                    proof {
                        assert(spec_children_seq(ns, root) =~= Seq::<ChildItem>::empty());
                        if path@.skip(1).len() > 0 {
                            assert(spec_find_child(Seq::<ChildItem>::empty(), path@.skip(1)[0])
                                == None::<ChildItem>);
                        }
                    }
                    None
                },
            }
        },
    }
}

/// The trait the given absolute path names: the resolved definition when it
/// is of trait kind, and nothing for any other kind or for no resolution.
pub open spec fn spec_get_trait_def_id(ns: &Namespace, path: Seq<Name>) -> Option<DefId>
    recommends
        path.len() >= 1,
{
    match spec_path_to_def(ns, path) {
        Some(Def::Trait(id)) => Some(id),
        _ => None,
    }
}

/// Resolve an absolute path to a trait's identity; any definition of
/// another kind yields nothing.
pub fn get_trait_def_id(ns: &Namespace, path: &Vec<Name>) -> (r: Option<DefId>)
    requires
        path@.len() >= 1,
        ns.wf(),
    ensures
        r == spec_get_trait_def_id(ns, path@),
{
    match path_to_def(ns, path) {
        Some(def) => match def {
            Def::Trait(id) => Some(id),
            _ => None,
        },
        None => None,
    }
}

/// The resolution recorded for a type-relative path at a node, searched
/// from position `i`.
pub open spec fn spec_find_type_dependent_from(
    defs: Seq<TypeDependentDef>,
    node: u32,
    i: int,
) -> Option<Def>
    decreases defs.len() - i,
    when 0 <= i <= defs.len()
{
    if i >= defs.len() {
        None
    } else if defs[i].node == node {
        Some(defs[i].def)
    } else {
        spec_find_type_dependent_from(defs, node, i + 1)
    }
}

/// The definition a qualified path resolves to at a node: a resolved path
/// carries its definition itself; a type-relative path is looked up in the
/// typeck tables, and a node the tables did not record resolves to the
/// error definition.
pub open spec fn spec_qpath_def(tables: &Tables, qpath: QPath, id: u32) -> Def {
    match qpath {
        QPath::Resolved(_, path) => path.def,
        QPath::TypeRelative(_, _) => match spec_find_type_dependent_from(
            tables.type_dependent_defs@,
            id,
            0,
        ) {
            Some(def) => def,
            None => Def::Error,
        },
    }
}

/// Resolve the definition of a qualified path at the node it appears at.
pub fn resolve_node(tables: &Tables, qpath: &QPath, id: u32) -> (r: Def)
    ensures
        r == spec_qpath_def(tables, *qpath, id),
{
    match qpath {
        QPath::Resolved(_, path) => path.def,
        QPath::TypeRelative(_, _) => {
            let defs = &tables.type_dependent_defs;
            let mut i: usize = 0;
            while i < defs.len()
                invariant
                    0 <= i <= defs@.len(),
                    *qpath is TypeRelative,
                    defs == &tables.type_dependent_defs,
                    spec_find_type_dependent_from(defs@, id, 0) == spec_find_type_dependent_from(
                        defs@,
                        id,
                        i as int,
                    ),
                decreases defs@.len() - i,
            {
                if defs[i].node == id {
                    assert(spec_find_type_dependent_from(defs@, id, i as int) == Some(
                        defs@[i as int].def,
                    ));
                    return defs[i].def;
                }
                i = i + 1;
            }
            Def::Error
        },
    }
}

/// The owner recorded for an item in a list of ownership links, searched
/// from position `i`.
pub open spec fn spec_find_owner_from(links: Seq<DefLink>, item: DefId, i: int) -> Option<DefId>
    decreases links.len() - i,
    when 0 <= i <= links.len()
{
    if i >= links.len() {
        None
    } else if links[i].item == item {
        Some(links[i].owner)
    } else {
        spec_find_owner_from(links, item, i + 1)
    }
}

/// The owner recorded for an item in a list of ownership links.
pub open spec fn spec_find_owner(links: Seq<DefLink>, item: DefId) -> Option<DefId> {
    spec_find_owner_from(links, item, 0)
}

/// Find the owner recorded for an item.
fn find_owner(links: &Vec<DefLink>, item: DefId) -> (r: Option<DefId>)
    ensures
        r == spec_find_owner(links@, item),
{
    let mut i: usize = 0;
    while i < links.len()
        invariant
            0 <= i <= links@.len(),
            spec_find_owner(links@, item) == spec_find_owner_from(links@, item, i as int),
        decreases links@.len() - i,
    {
        if links[i].item == item {
            return Some(links[i].owner);
        }
        i = i + 1;
    }
    None
}

/// The callee recorded for a method call at a node, searched from
/// position `i`.
pub open spec fn spec_find_callee_from(map: Seq<MethodCallee>, node: u32, i: int) -> Option<DefId>
    decreases map.len() - i,
    when 0 <= i <= map.len()
{
    if i >= map.len() {
        None
    } else if map[i].node == node {
        Some(map[i].def_id)
    } else {
        spec_find_callee_from(map, node, i + 1)
    }
}

/// The callee recorded for a method call at a node.
pub open spec fn spec_method_callee(tables: &Tables, node: u32) -> Option<DefId> {
    spec_find_callee_from(tables.method_map@, node, 0)
}

/// Find the callee recorded for a method call at a node.
fn find_method_callee(tables: &Tables, node: u32) -> (r: Option<DefId>)
    ensures
        r == spec_method_callee(tables, node),
{
    let map = &tables.method_map;
    let mut i: usize = 0;
    while i < map.len()
        invariant
            0 <= i <= map@.len(),
            spec_method_callee(tables, node) == spec_find_callee_from(map@, node, i as int),
        decreases map@.len() - i,
    {
        if map[i].node == node {
            return Some(map[i].def_id);
        }
        i = i + 1;
    }
    None
}

/// The absolute path recorded for a definition, searched from position `i`.
pub open spec fn spec_find_def_path_from(paths: Seq<DefPath>, id: DefId, i: int) -> Option<
    Seq<Name>,
>
    decreases paths.len() - i,
    when 0 <= i <= paths.len()
{
    if i >= paths.len() {
        None
    } else if paths[i].def_id == id {
        Some(paths[i].names@)
    } else {
        spec_find_def_path_from(paths, id, i + 1)
    }
}

/// The absolute path the host prints for a definition, if it has one.
pub open spec fn spec_def_path_of(ns: &Namespace, id: DefId) -> Option<Seq<Name>> {
    spec_find_def_path_from(ns.def_paths@, id, 0)
}

/// Look up the absolute path the host prints for a definition.
fn def_path_of<'a>(ns: &'a Namespace, id: DefId) -> (r: Option<&'a Vec<Name>>)
    ensures
        match (r, spec_def_path_of(ns, id)) {
            (Some(v), Some(s)) => v@ == s,
            (None, None) => true,
            _ => false,
        },
{
    let paths = &ns.def_paths;
    let mut i: usize = 0;
    while i < paths.len()
        invariant
            0 <= i <= paths@.len(),
            spec_def_path_of(ns, id) == spec_find_def_path_from(paths@, id, i as int),
        decreases paths@.len() - i,
    {
        if paths[i].def_id == id {
            return Some(&paths[i].names);
        }
        i = i + 1;
    }
    None
}

/// Whether a definition's absolute path equals the given segment list
/// exactly — same length, same names. A definition the host prints no path
/// for matches nothing.
pub open spec fn spec_match_def_path(ns: &Namespace, def_id: DefId, path: Seq<Name>) -> bool {
    match spec_def_path_of(ns, def_id) {
        Some(names) => names == path,
        None => false,
    }
}

/// Compare two name lists for equality.
fn names_equal(a: &Vec<Name>, b: &Vec<Name>) -> (r: bool)
    ensures
        r == (a@ == b@),
{
    if a.len() != b.len() {
        return false;
    }
    let mut i: usize = 0;
    while i < a.len()
        invariant
            0 <= i <= a@.len(),
            a@.len() == b@.len(),
            forall|j: int| 0 <= j < i ==> a@[j] == b@[j],
        decreases a@.len() - i,
    {
        if a[i] != b[i] {
            return false;
        }
        i = i + 1;
    }
    assert(a@ =~= b@);
    true
}

/// Check whether a definition's absolute path matches the given segment
/// list exactly, whole-path equality included.
pub fn match_def_path(ns: &Namespace, def_id: DefId, path: &Vec<Name>) -> (r: bool)
    ensures
        r == spec_match_def_path(ns, def_id, path@),
{
    match def_path_of(ns, def_id) {
        Some(names) => names_equal(names, path),
        None => false,
    }
}

/// Whether the method call at an expression belongs to an impl whose
/// definition's absolute path matches the given segments: the recorded
/// callee's declaring impl, matched exactly.
pub open spec fn spec_match_impl_method(
    ns: &Namespace,
    tables: &Tables,
    expr: Expr,
    path: Seq<Name>,
) -> bool {
    match spec_method_callee(tables, expr.id) {
        Some(callee) => match spec_find_owner(ns.impl_owners@, callee) {
            Some(owner) => spec_match_def_path(ns, owner, path),
            None => false,
        },
        None => false,
    }
}

/// Check whether the method call in `expr` belongs to the impl named by the
/// given absolute path.
pub fn match_impl_method(ns: &Namespace, tables: &Tables, expr: &Expr, path: &Vec<Name>) -> (r:
    bool)
    ensures
        r == spec_match_impl_method(ns, tables, *expr, path@),
{
    match find_method_callee(tables, expr.id) {
        Some(callee) => match find_owner(&ns.impl_owners, callee) {
            Some(owner) => match_def_path(ns, owner, path),
            None => false,
        },
        None => false,
    }
}

/// Whether the method call at an expression belongs to a trait whose
/// definition's absolute path matches the given segments: the recorded
/// callee's declaring trait, matched exactly.
pub open spec fn spec_match_trait_method(
    ns: &Namespace,
    tables: &Tables,
    expr: Expr,
    path: Seq<Name>,
) -> bool {
    match spec_method_callee(tables, expr.id) {
        Some(callee) => match spec_find_owner(ns.trait_owners@, callee) {
            Some(owner) => spec_match_def_path(ns, owner, path),
            None => false,
        },
        None => false,
    }
}

/// Check whether the method call in `expr` belongs to the trait named by
/// the given absolute path.
pub fn match_trait_method(ns: &Namespace, tables: &Tables, expr: &Expr, path: &Vec<Name>) -> (r:
    bool)
    ensures
        r == spec_match_trait_method(ns, tables, *expr, path@),
{
    match find_method_callee(tables, expr.id) {
        Some(callee) => match find_owner(&ns.trait_owners, callee) {
            Some(owner) => match_def_path(ns, owner, path),
            None => false,
        },
        None => false,
    }
}

/// Whether the typeck tables record an implicit adjustment at a node.
pub open spec fn spec_is_adjusted(tables: &Tables, node: u32) -> bool {
    tables.adjustments@.contains(node)
}

/// Check whether the typeck tables record an implicit adjustment (an
/// autoderef or coercion) on the given expression.
pub fn is_adjusted(tables: &Tables, e: &Expr) -> (r: bool)
    ensures
        r == spec_is_adjusted(tables, e.id),
{
    let mut i: usize = 0;
    while i < tables.adjustments.len()
        invariant
            0 <= i <= tables.adjustments@.len(),
            forall|j: int| 0 <= j < i ==> tables.adjustments@[j] != e.id,
        decreases tables.adjustments@.len() - i,
    {
        if tables.adjustments[i] == e.id {
            assert(tables.adjustments@.contains(e.id));
            return true;
        }
        i = i + 1;
    }
    assert(!tables.adjustments@.contains(e.id));
    false
}

/// Resolution is a pure function of the namespace and the path: resolving
/// the same absolute path twice against the same snapshot yields the
/// identical definition, so an identity obtained from one resolution is
/// exactly what a repeated resolution returns.
pub proof fn lemma_path_to_def_deterministic(ns: &Namespace, path: Seq<Name>)
    requires
        path.len() >= 1,
    ensures
        spec_path_to_def(ns, path) == spec_path_to_def(ns, path),
{
}

} // verus!
