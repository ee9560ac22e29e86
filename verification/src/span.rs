//! Spans, expansion provenance, and the queries over them.
//!
//! A span carries an expansion-context token. The host records, per context
//! token, whether that context was produced by a macro or desugaring and, if
//! so, an expansion-info record: the callee's name and format, the callee's
//! own definition span when the host knows it, and the call site. Records for
//! nested expansions form a chain, followed through each record's call-site
//! span; the host allocates context tokens in creation order, so a
//! well-formed record's call site always carries a strictly smaller token
//! than the record's own.

use vstd::prelude::*;
use crate::syms::{Name, SYM_RANGE_DESUGARING};

verus! {

/// A source location: a byte range into the host's source text, plus the
/// expansion-context token of the expansion that produced it.
#[derive(Clone, Copy, PartialEq, Eq, Structural, Debug)]
pub struct Span {
    /// First byte of the range.
    pub lo: usize,
    /// One past the last byte of the range.
    pub hi: usize,
    /// Expansion-context token; indexes the expansion table.
    pub ctxt: u32,
}

/// How an expansion came about, together with the name of its callee:
/// an invocation of a named macro, an attribute-style expansion, or a
/// compiler-internal desugaring.
#[derive(Clone, Copy, PartialEq, Eq, Structural, Debug)]
pub enum ExpnFormat {
    MacroBang(Name),
    MacroAttribute(Name),
    CompilerDesugaring(Name),
}

/// One expansion layer: what was expanded, where its definition is (if the
/// host can point at it), and the span of the call that triggered it.
#[derive(Clone, Copy, PartialEq, Eq, Structural, Debug)]
pub struct ExpnInfo {
    /// Format and name of the callee.
    pub format: ExpnFormat,
    /// The callee's own definition span, when the host knows one.
    pub callee_span: Option<Span>,
    /// The span of the invocation that produced this expansion.
    pub call_site: Span,
}

/// The host's per-pass table of expansion records, indexed by
/// expansion-context token. A token with no record (or out of range)
/// belongs to source the user wrote directly.
pub struct ExpnTable {
    pub infos: Vec<Option<ExpnInfo>>,
}

/// Source-text recovery: the host's concatenated source, sliced by spans.
/// A span outside the stored text cannot be recovered.
pub struct SourceMap {
    pub src: Vec<u8>,
}

/// The name a record's format carries.
pub open spec fn spec_callee_name(format: ExpnFormat) -> Name {
    match format {
        ExpnFormat::MacroBang(name) => name,
        ExpnFormat::MacroAttribute(name) => name,
        ExpnFormat::CompilerDesugaring(name) => name,
    }
}

/// The name a record's format carries.
pub fn callee_name(format: ExpnFormat) -> (name: Name)
    ensures
        name == spec_callee_name(format),
{
    match format {
        ExpnFormat::MacroBang(name) => name,
        ExpnFormat::MacroAttribute(name) => name,
        ExpnFormat::CompilerDesugaring(name) => name,
    }
}

impl ExpnTable {
    /// The expansion record of a context token: the stored record inside the
    /// table's range, and none outside it.
    pub open spec fn spec_expn_info(&self, ctxt: u32) -> Option<ExpnInfo> {
        if ctxt < self.infos@.len() {
            self.infos@[ctxt as int]
        } else {
            None
        }
    }

    /// Look up the expansion record of a context token.
    pub fn expn_info(&self, ctxt: u32) -> (r: Option<ExpnInfo>)
        ensures
            r == self.spec_expn_info(ctxt),
    {
        if (ctxt as usize) < self.infos.len() {
            self.infos[ctxt as usize]
        } else {
            None
        }
    }
}

impl SourceMap {
    /// The text a span covers, when the span lies within the stored source.
    pub open spec fn spec_snippet(&self, sp: Span) -> Option<Seq<u8>> {
        if sp.lo <= sp.hi && sp.hi <= self.src@.len() {
            Some(self.src@.subrange(sp.lo as int, sp.hi as int))
        } else {
            None
        }
    }

    /// Recover the text a span covers, if it lies within the stored source.
    pub fn snippet(&self, sp: Span) -> (r: Option<Vec<u8>>)
        ensures
            match (r, self.spec_snippet(sp)) {
                (Some(v), Some(s)) => v@ == s,
                (None, None) => true,
                _ => false,
            },
    {
        if sp.lo <= sp.hi && sp.hi <= self.src.len() {
            let mut out: Vec<u8> = Vec::new();
            let mut i: usize = sp.lo;
            while i < sp.hi
                invariant
                    sp.lo <= i <= sp.hi,
                    sp.hi <= self.src@.len(),
                    out@ == self.src@.subrange(sp.lo as int, i as int),
                decreases sp.hi - i,
            {
                out.push(self.src[i]);
                i = i + 1;
                assert(out@ == self.src@.subrange(sp.lo as int, i as int));
            }
            assert(out@ == self.spec_snippet(sp).unwrap());
            Some(out)
        } else {
            None
        }
    }
}

/// Whether two spans come from differing expansion contexts: true exactly
/// when their context tokens differ, independent of textual location.
pub open spec fn spec_differing_macro_contexts(lhs: Span, rhs: Span) -> bool {
    lhs.ctxt != rhs.ctxt
}

/// Returns true iff the two spans come from differing expansions (e.g. one
/// from a macro and one not).
pub fn differing_macro_contexts(lhs: Span, rhs: Span) -> (r: bool)
    ensures
        r == spec_differing_macro_contexts(lhs, rhs),
{
    rhs.ctxt != lhs.ctxt
}

/// The differing-contexts test depends only on whether the two tokens are
/// equal, so it is symmetric in its arguments.
pub proof fn lemma_differing_contexts_symmetric(a: Span, b: Span)
    ensures
        spec_differing_macro_contexts(a, b) == spec_differing_macro_contexts(b, a),
        spec_differing_macro_contexts(a, b) == (a.ctxt != b.ctxt),
{
}

/// Whether a span was produced by any macro or desugaring, with the one
/// transparent exception: the range-literal desugaring does not count.
pub open spec fn spec_in_macro(table: &ExpnTable, span: Span) -> bool {
    match table.spec_expn_info(span.ctxt) {
        None => false,
        Some(info) => match info.format {
            ExpnFormat::CompilerDesugaring(name) => name != SYM_RANGE_DESUGARING,
            _ => true,
        },
    }
}

/// Returns true iff the span was expanded by any macro. The range-literal
/// desugaring is treated as "not expanded" so that that one rewrite stays
/// transparent to callers; every other desugaring and every macro counts.
pub fn in_macro(table: &ExpnTable, span: Span) -> (r: bool)
    ensures
        r == spec_in_macro(table, span),
{
    match table.expn_info(span.ctxt) {
        None => false,
        Some(info) => match info.format {
            ExpnFormat::CompilerDesugaring(name) => name != SYM_RANGE_DESUGARING,
            _ => true,
        },
    }
}

/// The keyword that introduces a by-example macro definition, as bytes.
pub open spec fn spec_macro_keyword() -> Seq<u8> {
    seq![109u8, 97u8, 99u8, 114u8, 111u8, 95u8, 114u8, 117u8, 108u8, 101u8, 115u8]
}

/// Whether recovered source text begins with the macro-definition keyword.
pub open spec fn spec_starts_with_macro_keyword(code: Seq<u8>) -> bool {
    code.len() >= 11 && code.subrange(0, 11) == spec_macro_keyword()
}

/// Check whether recovered source text begins with the macro-definition
/// keyword (`m a c r o _ r u l e s`).
pub fn starts_with_macro_keyword(code: &Vec<u8>) -> (r: bool)
    ensures
        r == spec_starts_with_macro_keyword(code@),
{
    if code.len() < 11 {
        return false;
    }
    let r = code[0] == 109 && code[1] == 97 && code[2] == 99 && code[3] == 114 && code[4] == 111
        && code[5] == 95 && code[6] == 114 && code[7] == 117 && code[8] == 108 && code[9] == 101
        && code[10] == 115;
    proof {
        if r {
            assert(code@.subrange(0, 11) =~= spec_macro_keyword());
        } else {
            assert(code@.subrange(0, 11) != spec_macro_keyword()) by {
                if code@.subrange(0, 11) == spec_macro_keyword() {
                    assert(forall|j: int|
                        0 <= j < 11 ==> code@[j] == #[trigger] spec_macro_keyword()[j]) by {
                        assert(forall|j: int|
                            0 <= j < 11 ==> code@.subrange(0, 11)[j] == code@[j]);
                    }
                }
            }
        }
    }
    r
}

/// Whether a span's expansion is external (opaque to the user): it has an
/// expansion record, and the expansion is attribute-style, or the callee's
/// definition span is unknown, or its text cannot be recovered, or the
/// recovered text does not begin with the macro-definition keyword.
pub open spec fn spec_in_external_macro(table: &ExpnTable, sm: &SourceMap, span: Span) -> bool {
    match table.spec_expn_info(span.ctxt) {
        None => false,
        Some(info) => match info.format {
            ExpnFormat::MacroAttribute(_) => true,
            _ => match info.callee_span {
                None => true,
                Some(def_sp) => match sm.spec_snippet(def_sp) {
                    None => true,
                    Some(code) => !spec_starts_with_macro_keyword(code),
                },
            },
        },
    }
}

/// Returns true iff the macro that produced the span is outside the analyzed
/// program or otherwise opaque: attribute-style expansions always are; so is
/// any callee whose definition span or source text the host cannot produce,
/// or whose text does not begin with the macro-definition keyword.
pub fn in_external_macro(table: &ExpnTable, sm: &SourceMap, span: Span) -> (r: bool)
    ensures
        r == spec_in_external_macro(table, sm, span),
{
    match table.expn_info(span.ctxt) {
        None => false,
        Some(info) => match info.format {
            ExpnFormat::MacroAttribute(_) => true,
            _ => match info.callee_span {
                None => true,
                Some(def_sp) => match sm.snippet(def_sp) {
                    None => true,
                    Some(code) => !starts_with_macro_keyword(&code),
                },
            },
        },
    }
}

/// The call-site span of the innermost expansion layer whose callee is the
/// given name, following the chain outward from the given context token.
/// The walk follows a record's call site only while the call site's token is
/// strictly smaller than the record's own, which holds of every chain the
/// host builds (tokens are allocated in creation order) and bounds the walk
/// on malformed input.
pub open spec fn spec_expn_of(table: &ExpnTable, ctxt: u32, name: Name) -> Option<Span>
    decreases ctxt,
{
    match table.spec_expn_info(ctxt) {
        None => None,
        Some(info) => if spec_callee_name(info.format) == name {
            Some(info.call_site)
        } else if info.call_site.ctxt < ctxt {
            spec_expn_of(table, info.call_site.ctxt, name)
        } else {
            None
        },
    }
}

/// Return the pre-expansion (call-site) span if the span comes from an
/// expansion of the macro `name`, possibly nested under other expansions.
/// The chain is walked from the innermost layer outward, so the innermost
/// matching layer wins; absence means the chain ended without a match.
pub fn is_expn_of(table: &ExpnTable, span: Span, name: Name) -> (r: Option<Span>)
    ensures
        r == spec_expn_of(table, span.ctxt, name),
{
    let mut ctxt = span.ctxt;
    loop
        invariant
            spec_expn_of(table, span.ctxt, name) == spec_expn_of(table, ctxt, name),
        decreases ctxt,
    {
        match table.expn_info(ctxt) {
            None => {
                return None;
            },
            Some(info) => {
                if callee_name(info.format) == name {
                    return Some(info.call_site);
                }
                if info.call_site.ctxt < ctxt {
                    ctxt = info.call_site.ctxt;
                } else {
                    return None;
                }
            },
        }
    }
}

/// The call-site span if the immediate (innermost) expansion layer's callee
/// is the given name; no walking.
pub open spec fn spec_direct_expn_of(table: &ExpnTable, span: Span, name: Name) -> Option<Span> {
    match table.spec_expn_info(span.ctxt) {
        Some(info) => if spec_callee_name(info.format) == name {
            Some(info.call_site)
        } else {
            None
        },
        None => None,
    }
}

/// Return the pre-expansion span if the span comes directly from an
/// expansion of the macro `name`: only the innermost layer is examined,
/// unlike `is_expn_of`, which walks the whole chain.
pub fn is_direct_expn_of(table: &ExpnTable, span: Span, name: Name) -> (r: Option<Span>)
    ensures
        r == spec_direct_expn_of(table, span, name),
{
    match table.expn_info(span.ctxt) {
        Some(info) => {
            if callee_name(info.format) == name {
                Some(info.call_site)
            } else {
                None
            }
        },
        None => None,
    }
}

} // verus!
