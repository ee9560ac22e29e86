use lint_utils::span::{
    differing_macro_contexts, in_external_macro, in_macro, is_direct_expn_of, is_expn_of,
    ExpnFormat, ExpnInfo, ExpnTable, SourceMap, Span,
};
use lint_utils::syms::SYM_RANGE_DESUGARING;

fn sp(lo: usize, hi: usize, ctxt: u32) -> Span {
    Span { lo, hi, ctxt }
}

#[test]
fn differing_contexts_iff_tokens_differ() {
    let a = sp(0, 5, 1);
    let b = sp(10, 20, 1);
    let c = sp(0, 5, 2);
    assert!(!differing_macro_contexts(a, b));
    assert!(differing_macro_contexts(a, c));
}

#[test]
fn differing_contexts_symmetric() {
    let a = sp(0, 5, 1);
    let c = sp(7, 9, 2);
    assert_eq!(differing_macro_contexts(a, c), differing_macro_contexts(c, a));
    let b = sp(3, 4, 1);
    assert_eq!(differing_macro_contexts(a, b), differing_macro_contexts(b, a));
}

#[test]
fn in_macro_plain_span_is_false() {
    let table = ExpnTable { infos: vec![None] };
    assert!(!in_macro(&table, sp(0, 1, 0)));
    // an out-of-range context token has no expansion record either
    assert!(!in_macro(&table, sp(0, 1, 9)));
}

#[test]
fn in_macro_bang_expansion_is_true() {
    let table = ExpnTable {
        infos: vec![
            None,
            Some(ExpnInfo {
                format: ExpnFormat::MacroBang(42),
                callee_span: None,
                call_site: sp(0, 10, 0),
            }),
        ],
    };
    assert!(in_macro(&table, sp(2, 4, 1)));
}

#[test]
fn in_macro_range_desugaring_is_transparent() {
    let table = ExpnTable {
        infos: vec![
            None,
            Some(ExpnInfo {
                format: ExpnFormat::CompilerDesugaring(SYM_RANGE_DESUGARING),
                callee_span: None,
                call_site: sp(0, 10, 0),
            }),
            Some(ExpnInfo {
                format: ExpnFormat::CompilerDesugaring(77),
                callee_span: None,
                call_site: sp(0, 10, 0),
            }),
        ],
    };
    // the one designated desugaring does not count as a macro
    assert!(!in_macro(&table, sp(2, 4, 1)));
    // every other desugaring does
    assert!(in_macro(&table, sp(2, 4, 2)));
}

#[test]
fn externally_expanded_when_callee_span_unknown() {
    let table = ExpnTable {
        infos: vec![
            None,
            Some(ExpnInfo {
                format: ExpnFormat::MacroBang(42),
                callee_span: None,
                call_site: sp(0, 10, 0),
            }),
        ],
    };
    let sm = SourceMap { src: Vec::new() };
    assert!(in_external_macro(&table, &sm, sp(2, 4, 1)));
}

#[test]
fn not_externally_expanded_when_definition_recoverable() {
    let src = b"macro_rules! local_macro { () => {} }".to_vec();
    let table = ExpnTable {
        infos: vec![
            None,
            Some(ExpnInfo {
                format: ExpnFormat::MacroBang(42),
                callee_span: Some(sp(0, 12, 0)),
                call_site: sp(0, 10, 0),
            }),
        ],
    };
    let sm = SourceMap { src };
    assert!(!in_external_macro(&table, &sm, sp(2, 4, 1)));
}

#[test]
fn externally_expanded_when_text_is_not_a_macro_definition() {
    let src = b"fn generated() {}".to_vec();
    let table = ExpnTable {
        infos: vec![
            None,
            Some(ExpnInfo {
                format: ExpnFormat::MacroBang(42),
                callee_span: Some(sp(0, 17, 0)),
                call_site: sp(0, 10, 0),
            }),
        ],
    };
    let sm = SourceMap { src };
    assert!(in_external_macro(&table, &sm, sp(2, 4, 1)));
}

#[test]
fn externally_expanded_when_snippet_unrecoverable() {
    let src = b"short".to_vec();
    let table = ExpnTable {
        infos: vec![
            None,
            Some(ExpnInfo {
                format: ExpnFormat::MacroBang(42),
                // the span reaches past the stored source
                callee_span: Some(sp(0, 50, 0)),
                call_site: sp(0, 10, 0),
            }),
        ],
    };
    let sm = SourceMap { src };
    assert!(in_external_macro(&table, &sm, sp(2, 4, 1)));
}

#[test]
fn attribute_expansion_is_always_external() {
    let src = b"macro_rules! innocent { () => {} }".to_vec();
    let table = ExpnTable {
        infos: vec![
            None,
            Some(ExpnInfo {
                format: ExpnFormat::MacroAttribute(42),
                callee_span: Some(sp(0, 12, 0)),
                call_site: sp(0, 10, 0),
            }),
        ],
    };
    let sm = SourceMap { src };
    assert!(in_external_macro(&table, &sm, sp(2, 4, 1)));
}

#[test]
fn plain_span_is_not_externally_expanded() {
    let table = ExpnTable { infos: vec![None] };
    let sm = SourceMap { src: Vec::new() };
    assert!(!in_external_macro(&table, &sm, sp(2, 4, 0)));
}

// a chain foo!(bar!(42)): ctxt 2 is the innermost (bar) layer whose call
// site carries ctxt 1 (the foo layer), whose call site is plain source.
fn nested_chain() -> ExpnTable {
    ExpnTable {
        infos: vec![
            None,
            Some(ExpnInfo {
                format: ExpnFormat::MacroBang(10),
                callee_span: None,
                call_site: sp(0, 20, 0),
            }),
            Some(ExpnInfo {
                format: ExpnFormat::MacroBang(11),
                callee_span: None,
                call_site: sp(5, 15, 1),
            }),
        ],
    }
}

#[test]
fn expn_of_walks_the_whole_chain() {
    let table = nested_chain();
    let span = sp(8, 10, 2);
    // the innermost layer is the bar layer
    assert_eq!(is_expn_of(&table, span, 11), Some(sp(5, 15, 1)));
    // foo is found one layer further out
    assert_eq!(is_expn_of(&table, span, 10), Some(sp(0, 20, 0)));
    // an unknown name exhausts the chain
    assert_eq!(is_expn_of(&table, span, 99), None);
}

#[test]
fn direct_expn_of_checks_only_the_innermost_layer() {
    let table = nested_chain();
    let span = sp(8, 10, 2);
    assert_eq!(is_direct_expn_of(&table, span, 11), Some(sp(5, 15, 1)));
    assert_eq!(is_direct_expn_of(&table, span, 10), None);
    assert_eq!(is_direct_expn_of(&table, sp(0, 1, 0), 10), None);
}

#[test]
fn expn_of_innermost_match_wins() {
    // both layers expand the same macro name; the walk starts innermost
    let table = ExpnTable {
        infos: vec![
            None,
            Some(ExpnInfo {
                format: ExpnFormat::MacroBang(10),
                callee_span: None,
                call_site: sp(0, 20, 0),
            }),
            Some(ExpnInfo {
                format: ExpnFormat::MacroBang(10),
                callee_span: None,
                call_site: sp(5, 15, 1),
            }),
        ],
    };
    assert_eq!(is_expn_of(&table, sp(8, 10, 2), 10), Some(sp(5, 15, 1)));
}

#[test]
fn expn_of_stops_on_a_malformed_chain() {
    // a record whose call site does not carry an earlier context token
    // cannot be followed further; the walk ends in absence
    let table = ExpnTable {
        infos: vec![
            None,
            Some(ExpnInfo {
                format: ExpnFormat::MacroBang(10),
                callee_span: None,
                call_site: sp(0, 20, 1),
            }),
        ],
    };
    assert_eq!(is_expn_of(&table, sp(8, 10, 1), 99), None);
    // the record itself is still consulted before any walking
    assert_eq!(is_expn_of(&table, sp(8, 10, 1), 10), Some(sp(0, 20, 1)));
}
