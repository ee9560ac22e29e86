//! Interned names.
//!
//! The host compiler interns every identifier, keyword and macro name into a
//! symbol table and hands the engine the resulting tokens; two names are equal
//! exactly when their tokens are equal. A handful of names that the engine
//! itself must recognise are pre-interned at fixed tokens, which the host
//! guarantees when it builds the table.

use vstd::prelude::*;

verus! {

/// A name interned by the host compiler's symbol table.
pub type Name = u32;

/// The tag of the one compiler-internal desugaring (the range-literal
/// rewrite) that provenance queries treat as transparent.
pub const SYM_RANGE_DESUGARING: Name = 0;

/// The receiver keyword, as it appears in a binding pattern of a method's
/// receiver argument.
pub const KW_SELF_VALUE: Name = 1;

/// The crate segment of the standard result type's path.
pub const SYM_CORE: Name = 2;

/// The module segment of the standard result type's path.
pub const SYM_RESULT_MOD: Name = 3;

/// The type segment of the standard result type's path.
pub const SYM_RESULT_TY: Name = 4;

/// The success variant of the standard result type.
pub const SYM_OK: Name = 5;

/// The failure variant of the standard result type.
pub const SYM_ERR: Name = 6;

/// The attribute name that marks an implementation produced by a derive.
pub const SYM_AUTOMATICALLY_DERIVED: Name = 7;

} // verus!
