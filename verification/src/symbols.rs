//! Well-known identifiers that the attribute parser compares against.

use crate::ast::Path;
use crate::ast::path_is_ident;
use crate::ast::str_eq;
use vstd::prelude::*;

verus! {

/// A well-known identifier, held as a static string. Its view is the
/// identifier's character sequence.
#[derive(Clone, Copy, Debug)]
pub struct Symbol(&'static str);

impl View for Symbol {
    type V = Seq<char>;

    closed spec fn view(&self) -> Seq<char> {
        self.0@
    }
}

/// The `crate` symbol: the one key the attribute's arguments may set.
pub fn crate_symbol() -> (s: Symbol)
    ensures
        s@ == "crate"@,
{
    Symbol("crate")
}

impl Symbol {
    /// Whether `ident` spells this symbol.
    pub fn matches_ident(&self, ident: &str) -> (r: bool)
        ensures
            r == (ident@ == self@),
    {
        str_eq(ident, self.0)
    }

    /// Whether `path` is exactly this symbol as a lone identifier.
    pub fn matches_path(&self, path: &Path) -> (r: bool)
        ensures
            r == path_is_ident(*path, self@),
    {
        path.is_ident(self.0)
    }

    /// The symbol's spelling.
    pub fn as_str(&self) -> (r: &'static str)
        ensures
            r@ == self@,
    {
        self.0
    }
}

} // verus!
