//! The errors the signature rewrite can report.

use vstd::prelude::*;

verus! {

/// Why the rewrite rejected its input. The `index` of the two parameter
/// errors is the position of the offending parameter within the list of
/// injected parameters, in declaration order.
#[derive(Clone, Copy, Debug, PartialEq, Eq, Structural)]
pub enum MacroError {
    /// The attribute's arguments began with an identifier other than
    /// `crate`.
    ExpectedCrate,
    /// The attribute's arguments went on after the crate path.
    TrailingTokens,
    /// An injected parameter's pattern is not a bare identifier.
    PatternNotIdent {
        /// Position among the injected parameters.
        index: usize,
    },
    /// An injected parameter's type is not of the shape `Arc<...>`.
    NotArc {
        /// Position among the injected parameters.
        index: usize,
    },
}

impl MacroError {
    /// The diagnostic text for this error.
    pub fn message(&self) -> (r: &'static str)
        ensures
            self is ExpectedCrate ==> r@ == "expected `crate` or no params"@,
            self is TrailingTokens ==> r@ == "unexpected tokens at the end of crate field attribute"@,
            self matches MacroError::PatternNotIdent { .. } ==> r@
                == "patterns cannot be injected"@,
            self matches MacroError::NotArc { .. } ==> r@ == "only Arc<...> can be injected"@,
    {
        match self {
            MacroError::ExpectedCrate => "expected `crate` or no params",
            MacroError::TrailingTokens => "unexpected tokens at the end of crate field attribute",
            MacroError::PatternNotIdent { .. } => "patterns cannot be injected",
            MacroError::NotArc { .. } => "only Arc<...> can be injected",
        }
    }
}

} // verus!
