//! Structural expression matchers: method-chain extraction, block
//! unwrapping, integer-literal recognition, and recognition of the
//! fallible-propagation match shape.

use vstd::prelude::*;
use crate::hir::{
    spec_opt_def_id, opt_def_id, Arg, Arm, Body, Def, Expr, ExprKind, FnDecl, LitKind,
    MatchSource, Pat, PatKind, QPath, Ty, TyKind,
};
use crate::paths::{
    spec_match_path, spec_result_err_suffix, spec_result_ok_suffix, match_path, result_err_suffix,
    result_ok_suffix,
};
use crate::span::{spec_in_macro, in_macro, ExpnTable};
use crate::syms::{Name, KW_SELF_VALUE};

verus! {

/// The expression left after unwrapping braced blocks that hold no
/// statements and exactly one trailing expression, repeatedly. A block with
/// statements, and an empty block with no trailing expression, stay as they
/// are.
pub open spec fn spec_remove_blocks(e: Expr) -> Expr
    decreases e,
{
    match e.node {
        ExprKind::Block(block) => if block.stmts@.len() == 0 {
            match block.expr {
                Some(inner) => spec_remove_blocks(*inner),
                None => e,
            }
        } else {
            e
        },
        _ => e,
    }
}

/// Remove blocks around an expression: a block with no statements wrapping
/// a single expression unwraps to that expression, recursively; anything
/// else is returned unchanged.
pub fn remove_blocks<'a>(expr: &'a Expr) -> (r: &'a Expr)
    ensures
        *r == spec_remove_blocks(*expr),
    decreases *expr,
{
    match &expr.node {
        ExprKind::Block(block) => {
            if block.stmts.len() == 0 {
                match &block.expr {
                    Some(inner) => remove_blocks(inner),
                    None => expr,
                }
            } else {
                expr
            }
        },
        _ => expr,
    }
}

/// Unwrapping blocks is idempotent: what one pass leaves, a second pass
/// leaves unchanged.
pub proof fn lemma_remove_blocks_idempotent(e: Expr)
    ensures
        spec_remove_blocks(spec_remove_blocks(e)) == spec_remove_blocks(e),
    decreases e,
{
    reveal_with_fuel(spec_remove_blocks, 2);
    match e.node {
        ExprKind::Block(block) => {
            if block.stmts@.len() == 0 {
                match block.expr {
                    Some(inner) => {
                        lemma_remove_blocks_idempotent(*inner);
                    },
                    None => {},
                }
            }
        },
        _ => {},
    }
}

/// Whether an expression is literally an integer literal of the given
/// value. No constant folding is performed: a named constant or computed
/// expression never matches.
pub open spec fn spec_is_integer_literal(e: Expr, value: u128) -> bool {
    match e.node {
        ExprKind::Lit(lit) => match lit.node {
            LitKind::Int(v) => v == value,
            _ => false,
        },
        _ => false,
    }
}

/// Check whether the given expression is an integer literal of the given
/// value.
pub fn is_integer_literal(expr: &Expr, value: u128) -> (r: bool)
    ensures
        r == spec_is_integer_literal(*expr, value),
{
    match &expr.node {
        ExprKind::Lit(lit) => match lit.node {
            LitKind::Int(v) => v == value,
            _ => false,
        },
        _ => false,
    }
}

/// Whether any expression in the sequence was produced by a macro
/// expansion.
pub open spec fn spec_any_in_macro(table: &ExpnTable, args: Seq<Expr>) -> bool {
    exists|i: int| 0 <= i < args.len() && spec_in_macro(table, args[i].span)
}

/// Check whether any argument of a call was produced by a macro expansion.
fn any_arg_in_macro(table: &ExpnTable, args: &Vec<Expr>) -> (r: bool)
    ensures
        r == spec_any_in_macro(table, args@),
{
    let mut i: usize = 0;
    while i < args.len()
        invariant
            0 <= i <= args@.len(),
            forall|j: int| 0 <= j < i ==> !spec_in_macro(table, args@[j].span),
        decreases args@.len() - i,
    {
        if in_macro(table, args[i].span) {
            assert(spec_any_in_macro(table, args@));
            return true;
        }
        i = i + 1;
    }
    false
}

/// The argument lists of a method-call chain matching the given names. The
/// chain is walked backward from the outermost call: the expression must be
/// a method call named by the last query name, its receiver a call named by
/// the one before, and so on through every query name contiguously. A call
/// with any macro-expanded argument fails the whole match, as does a node
/// without its receiver (a method call stores its receiver as the first
/// argument). On success, entry `j` holds the argument list of the call
/// matching query name `j`, receiver first.
pub open spec fn spec_method_chain_args(table: &ExpnTable, e: Expr, methods: Seq<Name>) -> Option<
    Seq<Seq<Expr>>,
>
    decreases methods.len(),
{
    if methods.len() == 0 {
        Some(Seq::empty())
    } else {
        match e.node {
            ExprKind::MethodCall(seg, args) => if seg.name == methods.last() && args@.len() >= 1
                && !spec_any_in_macro(table, args@) {
                match spec_method_chain_args(table, args@[0], methods.drop_last()) {
                    Some(rest) => Some(rest.push(args@)),
                    None => None,
                }
            } else {
                None
            },
            _ => None,
        }
    }
}

/// Match the chain against the first `n` query names.
fn chain_rec<'a>(table: &ExpnTable, expr: &'a Expr, methods: &Vec<Name>, n: usize) -> (r: Option<
    Vec<&'a Vec<Expr>>,
>)
    requires
        n <= methods@.len(),
    ensures
        match (r, spec_method_chain_args(table, *expr, methods@.take(n as int))) {
            (Some(v), Some(s)) => v@.len() == s.len() && forall|j: int|
                0 <= j < s.len() ==> v@[j]@ == s[j],
            (None, None) => true,
            _ => false,
        },
    decreases n,
{
    if n == 0 {
        let v: Vec<&'a Vec<Expr>> = Vec::new();
        return Some(v);
    }
    proof {
        assert(methods@.take(n as int).last() == methods@[n - 1]);
        assert(methods@.take(n as int).drop_last() =~= methods@.take(n - 1 as int));
    }
    match &expr.node {
        ExprKind::MethodCall(seg, args) => {
            if seg.name == methods[n - 1] {
                if args.len() >= 1 && !any_arg_in_macro(table, args) {
                    match chain_rec(table, &args[0], methods, n - 1) {
                        Some(mut v) => {
                            v.push(args);
                            Some(v)
                        },
                        None => None,
                    }
                } else {
                    None
                }
            } else {
                None
            }
        },
        _ => None,
    }
}

/// Match an expression against a chain of method names and return the
/// matched calls' argument lists, in the order of the query names. For the
/// expression standing for the final call of `x.a().b()`, querying the two
/// names of `a` and `b` yields the argument lists of `.a(..)` and `.b(..)`.
pub fn method_chain_args<'a>(table: &ExpnTable, expr: &'a Expr, methods: &Vec<Name>) -> (r: Option<
    Vec<&'a Vec<Expr>>,
>)
    ensures
        match (r, spec_method_chain_args(table, *expr, methods@)) {
            (Some(v), Some(s)) => v@.len() == s.len() && forall|j: int|
                0 <= j < s.len() ==> v@[j]@ == s[j],
            (None, None) => true,
            _ => false,
        },
{
    let r = chain_rec(table, expr, methods, methods.len());
    proof {
        assert(methods@.take(methods@.len() as int) =~= methods@);
    }
    r
}

/// Whether an arm is a success arm: exactly the success-variant tuple
/// pattern with no written gap, binding one name with no sub-pattern, whose
/// body is a bare resolved path returning that very binding unmodified.
/// A body path whose definition carries no identity never matches.
pub open spec fn spec_is_ok_arm(arm: Arm) -> bool {
    arm.pats@.len() >= 1 && match arm.pats@[0].node {
        PatKind::TupleStruct(path, pats, ddpos) => ddpos is None && spec_match_path(
            path,
            spec_result_ok_suffix(),
        ) && pats@.len() >= 1 && match pats@[0].node {
            PatKind::Binding(defid, _, sub) => sub is None && match arm.body.node {
                ExprKind::Path(QPath::Resolved(self_ty, body_path)) => self_ty is None
                    && spec_opt_def_id(body_path.def) == Some(defid),
                _ => false,
            },
            _ => false,
        },
        _ => false,
    }
}

/// Check whether an arm is a success arm.
fn is_ok_arm(arm: &Arm) -> (r: bool)
    ensures
        r == spec_is_ok_arm(*arm),
{
    if arm.pats.len() < 1 {
        return false;
    }
    match &arm.pats[0].node {
        PatKind::TupleStruct(path, pats, ddpos) => {
            match ddpos {
                Some(_) => false,
                None => {
                    let ok_suffix = result_ok_suffix();
                    if !match_path(path, &ok_suffix) {
                        return false;
                    }
                    if pats.len() < 1 {
                        return false;
                    }
                    match &pats[0].node {
                        PatKind::Binding(defid, _, sub) => match sub {
                            Some(_) => false,
                            None => match &arm.body.node {
                                ExprKind::Path(QPath::Resolved(self_ty, body_path)) => match self_ty {
                                    Some(_) => false,
                                    None => match opt_def_id(body_path.def) {
                                        Some(id) => id == *defid,
                                        None => false,
                                    },
                                },
                                _ => false,
                            },
                        },
                        _ => false,
                    }
                },
            }
        },
        _ => false,
    }
}

/// Whether an arm is a failure arm: any tuple-struct pattern naming the
/// failure variant.
pub open spec fn spec_is_err_arm(arm: Arm) -> bool {
    arm.pats@.len() >= 1 && match arm.pats@[0].node {
        PatKind::TupleStruct(path, _, _) => spec_match_path(path, spec_result_err_suffix()),
        _ => false,
    }
}

/// Check whether an arm is a failure arm.
fn is_err_arm(arm: &Arm) -> (r: bool)
    ensures
        r == spec_is_err_arm(*arm),
{
    if arm.pats.len() < 1 {
        return false;
    }
    match &arm.pats[0].node {
        PatKind::TupleStruct(path, _, _) => {
            let err_suffix = result_err_suffix();
            match_path(path, &err_suffix)
        },
        _ => false,
    }
}

/// The fallible-propagation match shape: either a match the host tagged as
/// produced by its propagation desugaring, or a two-armed match — arms in
/// either order, each with one pattern and no guard — of one success arm
/// and one failure arm. Recognition returns the expression itself.
pub open spec fn spec_is_try(e: Expr) -> Option<Expr> {
    match e.node {
        ExprKind::Match(_, arms, source) => if source == MatchSource::TryDesugar {
            Some(e)
        } else if arms@.len() == 2 && arms@[0].pats@.len() == 1 && arms@[0].guard is None
            && arms@[1].pats@.len() == 1 && arms@[1].guard is None && ((spec_is_ok_arm(arms@[0])
            && spec_is_err_arm(arms@[1])) || (spec_is_ok_arm(arms@[1]) && spec_is_err_arm(
            arms@[0],
        ))) {
            Some(e)
        } else {
            None
        },
        _ => None,
    }
}

/// Check if an expression is a match expanded from the fallible-propagation
/// operator or written in its two-armed shape, and return it if so.
pub fn is_try<'a>(expr: &'a Expr) -> (r: Option<&'a Expr>)
    ensures
        match (r, spec_is_try(*expr)) {
            (Some(a), Some(b)) => *a == b,
            (None, None) => true,
            _ => false,
        },
{
    match &expr.node {
        ExprKind::Match(_, arms, source) => {
            if *source == MatchSource::TryDesugar {
                return Some(expr);
            }
            if arms.len() == 2 {
                let guards_ok = arms[0].pats.len() == 1 && arms[0].guard.is_none() && arms[1]
                    .pats
                    .len() == 1 && arms[1].guard.is_none();
                if guards_ok {
                    if is_ok_arm(&arms[0]) && is_err_arm(&arms[1]) {
                        return Some(expr);
                    }
                    if is_ok_arm(&arms[1]) && is_err_arm(&arms[0]) {
                        return Some(expr);
                    }
                }
            }
            None
        },
        _ => None,
    }
}

/// Whether an argument's pattern is a plain binding of the receiver
/// keyword.
pub open spec fn spec_is_self(slf: Arg) -> bool {
    match slf.pat.node {
        PatKind::Binding(_, name, _) => name == KW_SELF_VALUE,
        _ => false,
    }
}

/// Check whether a formal argument is the method receiver.
pub fn is_self(slf: &Arg) -> (r: bool)
    ensures
        r == spec_is_self(*slf),
{
    match &slf.pat.node {
        PatKind::Binding(_, name, _) => *name == KW_SELF_VALUE,
        _ => false,
    }
}

/// Whether a written type is the bare self type: a resolved path with no
/// explicit self type whose definition is the inferred self type.
pub open spec fn spec_is_self_ty(slf: Ty) -> bool {
    match slf.node {
        TyKind::Path(QPath::Resolved(self_ty, path)) => self_ty is None && path.def is SelfTy,
        _ => false,
    }
}

/// Check whether a written type is the bare self type.
pub fn is_self_ty(slf: &Ty) -> (r: bool)
    ensures
        r == spec_is_self_ty(*slf),
{
    match &slf.node {
        TyKind::Path(QPath::Resolved(self_ty, path)) => match self_ty {
            Some(_) => false,
            None => match path.def {
                Def::SelfTy => true,
                _ => false,
            },
        },
        _ => false,
    }
}

/// Collect the bound arguments of a body, one per declared input of the
/// function's header, in declaration order.
pub fn iter_input_pats<'a>(decl: &FnDecl, body: &'a Body) -> (r: Vec<&'a Arg>)
    requires
        decl.inputs@.len() <= body.arguments@.len(),
    ensures
        r@.len() == decl.inputs@.len(),
        forall|i: int| 0 <= i < r@.len() ==> *r@[i] == body.arguments@[i],
{
    let mut out: Vec<&'a Arg> = Vec::new();
    let mut i: usize = 0;
    while i < decl.inputs.len()
        invariant
            0 <= i <= decl.inputs@.len(),
            decl.inputs@.len() <= body.arguments@.len(),
            out@.len() == i,
            forall|j: int| 0 <= j < i ==> *out@[j] == body.arguments@[j],
        decreases decl.inputs@.len() - i,
    {
        out.push(&body.arguments[i]);
        i = i + 1;
    }
    out
}

} // verus!
