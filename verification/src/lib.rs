//! Query and provenance engine for static-analysis checks over a compiler's
//! typed intermediate representation.
//!
//! The engine answers the questions every check needs: whether a span was
//! produced by a macro expansion and whether that expansion is opaque to the
//! user (`span`), structural matching of qualified paths against literal
//! segment lists (`paths`), resolution of absolute item paths through the
//! global namespace (`resolve`), capability and type-equivalence queries
//! against the host's inference facts (`ty`), pattern refutability analysis
//! (`patterns`), and structural expression matchers (`exprs`).
//!
//! The host compiler's data — spans, expansion records, definitions, the
//! namespace tree, typeck tables and inference facts — is represented by
//! plain immutable values, built once per analysis pass and queried without
//! mutation.

pub mod syms;
pub mod span;
pub mod hir;
pub mod paths;
pub mod resolve;
pub mod ty;
pub mod patterns;
pub mod exprs;
