use lint_utils::hir::DefId;
use lint_utils::resolve::{DefPath, Namespace};
use lint_utils::ty::{
    clone_ty, eq_ty, implements_trait, is_copy, match_type, same_tys, type_is_unsafe_function,
    walk_ptrs_ty, walk_ptrs_ty_depth, ImplFact, InferEnv, Region, ScopeSubst, Ty, Unsafety,
};

fn adt(index: u32) -> Ty {
    Ty::Adt(DefId { krate: 0, index })
}

fn reference(region: Region, inner: Ty) -> Ty {
    Ty::Ref(region, Box::new(inner))
}

#[test]
fn base_type_under_references() {
    let t = reference(Region::Named(1), reference(Region::Named(2), adt(5)));
    match walk_ptrs_ty(&t) {
        Ty::Adt(did) => assert_eq!(did.index, 5),
        _ => panic!("expected the nominal base type"),
    }
    let (base, depth) = walk_ptrs_ty_depth(&t);
    assert!(matches!(base, Ty::Adt(_)));
    assert_eq!(depth, 2);
    let (_, zero) = walk_ptrs_ty_depth(&adt(5));
    assert_eq!(zero, 0);
}

#[test]
fn unsafe_function_types() {
    let id = DefId { krate: 0, index: 1 };
    assert!(type_is_unsafe_function(&Ty::FnDef(id, Unsafety::Unsafe)));
    assert!(!type_is_unsafe_function(&Ty::FnDef(id, Unsafety::Normal)));
    assert!(type_is_unsafe_function(&Ty::FnPtr(Unsafety::Unsafe)));
    assert!(!type_is_unsafe_function(&Ty::FnPtr(Unsafety::Normal)));
    assert!(!type_is_unsafe_function(&adt(5)));
}

fn trait_id() -> DefId {
    DefId { krate: 1, index: 9 }
}

fn env_with_fact(scope: Option<u32>, self_ty: Ty) -> InferEnv {
    InferEnv {
        impls: vec![ImplFact {
            scope,
            self_ty,
            trait_id: trait_id(),
            params: vec![],
        }],
        scope_substs: vec![],
        copy_types: vec![],
    }
}

#[test]
fn implements_trait_consults_the_recorded_obligations() {
    let env = env_with_fact(None, adt(5));
    assert!(implements_trait(&env, &adt(5), trait_id(), &vec![], None));
    // a different self type, trait, or scope finds no record
    assert!(!implements_trait(&env, &adt(6), trait_id(), &vec![], None));
    assert!(!implements_trait(
        &env,
        &adt(5),
        DefId { krate: 1, index: 10 },
        &vec![],
        None
    ));
    assert!(!implements_trait(&env, &adt(5), trait_id(), &vec![], Some(3)));
}

#[test]
fn implements_trait_erases_regions_before_asking() {
    // the obligation is recorded for the erased reference type
    let env = env_with_fact(None, reference(Region::Erased, adt(5)));
    let named = reference(Region::Named(8), adt(5));
    assert!(implements_trait(&env, &named, trait_id(), &vec![], None));
}

#[test]
fn implements_trait_matches_type_arguments_exactly() {
    let env = InferEnv {
        impls: vec![ImplFact {
            scope: None,
            self_ty: adt(5),
            trait_id: trait_id(),
            params: vec![adt(6)],
        }],
        scope_substs: vec![],
        copy_types: vec![],
    };
    assert!(implements_trait(&env, &adt(5), trait_id(), &vec![adt(6)], None));
    assert!(!implements_trait(&env, &adt(5), trait_id(), &vec![adt(7)], None));
    assert!(!implements_trait(&env, &adt(5), trait_id(), &vec![], None));
}

#[test]
fn scoped_obligations_require_the_scope() {
    let env = env_with_fact(Some(4), adt(5));
    assert!(implements_trait(&env, &adt(5), trait_id(), &vec![], Some(4)));
    assert!(!implements_trait(&env, &adt(5), trait_id(), &vec![], None));
}

#[test]
fn same_types_ignores_region_names() {
    let env = InferEnv {
        impls: vec![],
        scope_substs: vec![],
        copy_types: vec![],
    };
    let a = reference(Region::Named(1), adt(5));
    let b = reference(Region::Named(2), adt(5));
    assert!(same_tys(&env, &a, &b, 0));
    let c = reference(Region::Named(1), adt(6));
    assert!(!same_tys(&env, &a, &c, 0));
}

#[test]
fn same_types_substitutes_the_scope_parameters() {
    let env = InferEnv {
        impls: vec![],
        scope_substs: vec![ScopeSubst {
            scope: 7,
            substs: vec![adt(5)],
        }],
        copy_types: vec![],
    };
    // within scope 7, parameter 0 stands for the nominal type
    assert!(same_tys(&env, &Ty::Param(0), &adt(5), 7));
    // within a scope with no recorded substitution it stays a bare parameter
    assert!(!same_tys(&env, &Ty::Param(0), &adt(5), 8));
    assert!(same_tys(&env, &Ty::Param(0), &Ty::Param(0), 8));
}

#[test]
fn copyability_follows_the_move_analysis_records() {
    let env = InferEnv {
        impls: vec![],
        scope_substs: vec![ScopeSubst {
            scope: 7,
            substs: vec![adt(5)],
        }],
        copy_types: vec![adt(5)],
    };
    assert!(is_copy(&env, &adt(5), 0));
    assert!(!is_copy(&env, &adt(6), 0));
    // the scope's substitution applies before the lookup
    assert!(is_copy(&env, &Ty::Param(0), 7));
    assert!(!is_copy(&env, &Ty::Param(0), 8));
}

#[test]
fn nominal_type_path_matching() {
    let did = DefId { krate: 0, index: 5 };
    let ns = Namespace {
        crates: vec![],
        children: vec![],
        def_paths: vec![DefPath {
            def_id: did,
            names: vec![1, 2, 3],
        }],
        impl_owners: vec![],
        trait_owners: vec![],
    };
    assert!(match_type(&ns, &adt(5), &vec![1, 2, 3]));
    assert!(!match_type(&ns, &adt(5), &vec![2, 3]));
    // only a nominal type matches
    assert!(!match_type(&ns, &reference(Region::Erased, adt(5)), &vec![1, 2, 3]));
}

#[test]
fn structural_type_equality() {
    let a = reference(Region::Named(1), adt(5));
    let b = reference(Region::Named(1), adt(5));
    let c = reference(Region::Named(2), adt(5));
    assert!(eq_ty(&a, &b));
    // equality is structural: region names count here
    assert!(!eq_ty(&a, &c));
    assert!(eq_ty(&a, &clone_ty(&a)));
}
