use lint_utils::hir::{
    is_automatically_derived, opt_def_id, Arg, Arm, Attribute, Block, Body, Def, DefId, Expr,
    ExprKind, FnDecl, Lit, LitKind, MatchSource, Pat, PatKind, Path, PathSegment, QPath, Stmt,
    Ty, TyKind,
};
use lint_utils::exprs::{
    is_integer_literal, is_self, is_self_ty, is_try, iter_input_pats, method_chain_args,
    remove_blocks,
};
use lint_utils::span::{ExpnFormat, ExpnInfo, ExpnTable, Span};
use lint_utils::syms::{KW_SELF_VALUE, SYM_AUTOMATICALLY_DERIVED, SYM_ERR, SYM_OK};

fn sp(ctxt: u32) -> Span {
    Span { lo: 0, hi: 0, ctxt }
}

fn expr(id: u32, node: ExprKind) -> Expr {
    Expr { id, span: sp(0), node }
}

fn no_expansions() -> ExpnTable {
    ExpnTable { infos: vec![None] }
}

const A: u32 = 11;
const B: u32 = 12;
const C: u32 = 13;

/// x.a().b().c() with x at node 1 and the calls at nodes 2, 3, 4.
fn three_call_chain() -> Expr {
    let x = expr(1, ExprKind::Other);
    let a_call = expr(2, ExprKind::MethodCall(PathSegment { name: A }, vec![x]));
    let b_call = expr(3, ExprKind::MethodCall(PathSegment { name: B }, vec![a_call]));
    expr(4, ExprKind::MethodCall(PathSegment { name: C }, vec![b_call]))
}

#[test]
fn chain_returns_argument_lists_in_query_order() {
    let table = no_expansions();
    let chain = three_call_chain();
    let matched = method_chain_args(&table, &chain, &vec![A, B, C]).unwrap();
    assert_eq!(matched.len(), 3);
    // entry j holds the arguments (receiver first) of the call matching
    // query name j
    assert_eq!(matched[0][0].id, 1);
    assert_eq!(matched[1][0].id, 2);
    assert_eq!(matched[2][0].id, 3);
}

#[test]
fn chain_names_must_match_contiguously_from_the_tail() {
    let table = no_expansions();
    let chain = three_call_chain();
    assert!(method_chain_args(&table, &chain, &vec![A, C]).is_none());
    assert!(method_chain_args(&table, &chain, &vec![C, B]).is_none());
    // a suffix of the chain matches
    let matched = method_chain_args(&table, &chain, &vec![B, C]).unwrap();
    assert_eq!(matched.len(), 2);
    assert_eq!(matched[0][0].id, 2);
}

#[test]
fn chain_with_macro_expanded_argument_never_matches() {
    let table = ExpnTable {
        infos: vec![
            None,
            Some(ExpnInfo {
                format: ExpnFormat::MacroBang(99),
                callee_span: None,
                call_site: sp(0),
            }),
        ],
    };
    let x = expr(1, ExprKind::Other);
    let macro_arg = Expr {
        id: 5,
        span: sp(1),
        node: ExprKind::Other,
    };
    let a_call = expr(2, ExprKind::MethodCall(PathSegment { name: A }, vec![x, macro_arg]));
    assert!(method_chain_args(&table, &a_call, &vec![A]).is_none());
}

#[test]
fn chain_on_a_non_call_fails_and_empty_query_succeeds() {
    let table = no_expansions();
    let x = expr(1, ExprKind::Other);
    assert!(method_chain_args(&table, &x, &vec![A]).is_none());
    let matched = method_chain_args(&table, &x, &vec![]).unwrap();
    assert_eq!(matched.len(), 0);
}

fn block_around(e: Expr, id: u32) -> Expr {
    expr(
        id,
        ExprKind::Block(Box::new(Block {
            stmts: vec![],
            expr: Some(Box::new(e)),
        })),
    )
}

#[test]
fn remove_blocks_unwraps_nested_single_expression_blocks() {
    let x = expr(1, ExprKind::Other);
    let wrapped = block_around(block_around(block_around(x, 2), 3), 4);
    assert_eq!(remove_blocks(&wrapped).id, 1);
}

#[test]
fn remove_blocks_keeps_blocks_with_statements() {
    let x = expr(1, ExprKind::Other);
    let b = expr(
        2,
        ExprKind::Block(Box::new(Block {
            stmts: vec![Stmt { span: sp(0) }],
            expr: Some(Box::new(x)),
        })),
    );
    assert_eq!(remove_blocks(&b).id, 2);
}

#[test]
fn remove_blocks_keeps_the_empty_block() {
    let b = expr(
        2,
        ExprKind::Block(Box::new(Block {
            stmts: vec![],
            expr: None,
        })),
    );
    assert_eq!(remove_blocks(&b).id, 2);
}

#[test]
fn remove_blocks_is_idempotent_on_concrete_shapes() {
    let x = expr(1, ExprKind::Other);
    let wrapped = block_around(block_around(x, 2), 3);
    let once = remove_blocks(&wrapped);
    let twice = remove_blocks(once);
    assert_eq!(once.id, twice.id);
}

#[test]
fn integer_literal_recognition() {
    let lit = expr(
        1,
        ExprKind::Lit(Lit {
            node: LitKind::Int(42),
            span: sp(0),
        }),
    );
    assert!(is_integer_literal(&lit, 42));
    assert!(!is_integer_literal(&lit, 43));
    let other = expr(
        2,
        ExprKind::Lit(Lit {
            node: LitKind::Other,
            span: sp(0),
        }),
    );
    assert!(!is_integer_literal(&other, 42));
    assert!(!is_integer_literal(&expr(3, ExprKind::Other), 42));
}

fn variant_qpath(seg_name: u32, def: Def) -> QPath {
    QPath::Resolved(
        None,
        Path {
            segments: vec![PathSegment { name: seg_name }],
            def,
        },
    )
}

fn ok_arm(binding_id: u32) -> Arm {
    let defid = DefId {
        krate: 0,
        index: binding_id,
    };
    let p = Pat {
        id: 0,
        node: PatKind::TupleStruct(
            variant_qpath(SYM_OK, Def::VariantCtor(DefId { krate: 0, index: 1 })),
            vec![Pat {
                id: 0,
                node: PatKind::Binding(defid, 50, None),
            }],
            None,
        ),
    };
    let body = expr(
        7,
        ExprKind::Path(QPath::Resolved(
            None,
            Path {
                segments: vec![PathSegment { name: 50 }],
                def: Def::Local(defid),
            },
        )),
    );
    Arm {
        pats: vec![p],
        guard: None,
        body: Box::new(body),
    }
}

fn err_arm() -> Arm {
    let p = Pat {
        id: 0,
        node: PatKind::TupleStruct(
            variant_qpath(SYM_ERR, Def::VariantCtor(DefId { krate: 0, index: 2 })),
            vec![Pat {
                id: 0,
                node: PatKind::Wild,
            }],
            None,
        ),
    };
    Arm {
        pats: vec![p],
        guard: None,
        body: Box::new(expr(8, ExprKind::Other)),
    }
}

fn match_of(arms: Vec<Arm>, source: MatchSource) -> Expr {
    expr(
        9,
        ExprKind::Match(Box::new(expr(6, ExprKind::Other)), arms, source),
    )
}

#[test]
fn two_armed_try_shape_is_recognized() {
    let m = match_of(vec![ok_arm(30), err_arm()], MatchSource::Normal);
    assert_eq!(is_try(&m).map(|e| e.id), Some(9));
}

#[test]
fn swapped_arms_are_still_recognized() {
    let m = match_of(vec![err_arm(), ok_arm(30)], MatchSource::Normal);
    assert_eq!(is_try(&m).map(|e| e.id), Some(9));
}

#[test]
fn three_armed_match_is_never_recognized() {
    let m = match_of(vec![ok_arm(30), err_arm(), err_arm()], MatchSource::Normal);
    assert!(is_try(&m).is_none());
}

#[test]
fn desugared_match_is_recognized_by_its_tag() {
    let m = match_of(vec![err_arm()], MatchSource::TryDesugar);
    assert_eq!(is_try(&m).map(|e| e.id), Some(9));
}

#[test]
fn success_arm_must_return_its_own_binding() {
    let mut arm = ok_arm(30);
    // body returns a different local than the one the pattern binds
    arm.body = Box::new(expr(
        7,
        ExprKind::Path(QPath::Resolved(
            None,
            Path {
                segments: vec![PathSegment { name: 50 }],
                def: Def::Local(DefId { krate: 0, index: 31 }),
            },
        )),
    ));
    let m = match_of(vec![arm, err_arm()], MatchSource::Normal);
    assert!(is_try(&m).is_none());
}

#[test]
fn guarded_arms_are_never_recognized() {
    let mut arm = ok_arm(30);
    arm.guard = Some(Box::new(expr(5, ExprKind::Other)));
    let m = match_of(vec![arm, err_arm()], MatchSource::Normal);
    assert!(is_try(&m).is_none());
}

#[test]
fn receiver_binding_recognition() {
    let receiver = Arg {
        pat: Pat {
            id: 0,
            node: PatKind::Binding(DefId { krate: 0, index: 1 }, KW_SELF_VALUE, None),
        },
    };
    assert!(is_self(&receiver));
    let plain = Arg {
        pat: Pat {
            id: 0,
            node: PatKind::Binding(DefId { krate: 0, index: 1 }, 60, None),
        },
    };
    assert!(!is_self(&plain));
}

#[test]
fn self_type_recognition() {
    let self_ty = Ty {
        id: 1,
        node: TyKind::Path(QPath::Resolved(
            None,
            Path {
                segments: vec![PathSegment { name: 61 }],
                def: Def::SelfTy,
            },
        )),
    };
    assert!(is_self_ty(&self_ty));
    let named = Ty {
        id: 2,
        node: TyKind::Path(QPath::Resolved(
            None,
            Path {
                segments: vec![PathSegment { name: 61 }],
                def: Def::Struct(DefId { krate: 0, index: 3 }),
            },
        )),
    };
    assert!(!is_self_ty(&named));
}

#[test]
fn input_pats_follow_the_declared_inputs() {
    let decl = FnDecl {
        inputs: vec![
            Ty { id: 1, node: TyKind::Other },
            Ty { id: 2, node: TyKind::Other },
        ],
    };
    let arg = |index: u32| Arg {
        pat: Pat {
            id: index,
            node: PatKind::Wild,
        },
    };
    let body = Body {
        arguments: vec![arg(0), arg(1), arg(2)],
    };
    let pats = iter_input_pats(&decl, &body);
    assert_eq!(pats.len(), 2);
    assert_eq!(pats[0].pat.id, 0);
    assert_eq!(pats[1].pat.id, 1);
}

#[test]
fn definition_identity_extraction() {
    let id = DefId { krate: 2, index: 3 };
    assert_eq!(opt_def_id(Def::Fn(id)), Some(id));
    assert_eq!(opt_def_id(Def::Variant(id)), Some(id));
    assert_eq!(opt_def_id(Def::Label), None);
    assert_eq!(opt_def_id(Def::PrimTy), None);
    assert_eq!(opt_def_id(Def::SelfTy), None);
    assert_eq!(opt_def_id(Def::Error), None);
}

#[test]
fn derive_marker_recognition() {
    let attrs = vec![Attribute { name: 70 }, Attribute {
        name: SYM_AUTOMATICALLY_DERIVED,
    }];
    assert!(is_automatically_derived(&attrs));
    assert!(!is_automatically_derived(&vec![Attribute { name: 70 }]));
    assert!(!is_automatically_derived(&vec![]));
}
