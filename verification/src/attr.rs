//! The arguments of the `inject` attribute itself.
//!
//! The attribute takes either nothing, in which case the generated code
//! refers to this crate under its default path, or `crate = some::path`,
//! naming the path under which the generated code should refer to it.

use crate::ast::Path;
use crate::ast::PathArguments;
use crate::ast::PathSegment;
use crate::error::MacroError;
use crate::symbols::crate_symbol;
use vstd::prelude::*;

verus! {

/// The attribute's arguments, read off the tokens: either nothing at all,
/// or an identifier, an `=`, a path, and possibly trailing tokens.
#[derive(Debug, PartialEq)]
pub enum AttrInput {
    /// The attribute had no arguments.
    Empty,
    /// The attribute's arguments were `name = path`, with `trailing` set
    /// when further tokens followed the path.
    NameValue {
        /// The identifier before the `=`.
        name: String,
        /// The path after the `=`.
        path: Path,
        /// Whether tokens remained after the path.
        trailing: bool,
    },
}

/// The parsed attribute: the path under which generated code refers to this
/// crate.
#[derive(Debug, PartialEq)]
pub struct Inject {
    /// The crate path to use in generated code.
    pub crate_path: Path,
}

/// Whether `p` is the default crate path `::coi_actix_web`.
pub open spec fn is_default_crate_path(p: Path) -> bool {
    &&& p.leading_colon
    &&& p.segments@.len() == 1
    &&& p.segments@[0].ident@ == "coi_actix_web"@
    &&& p.segments@[0].arguments is Bare
}

/// The default crate path `::coi_actix_web`.
pub fn default_crate_path() -> (r: Path)
    ensures
        is_default_crate_path(r),
{
    let mut segments: Vec<PathSegment> = Vec::new();
    segments.push(
        PathSegment { ident: String::from_str("coi_actix_web"), arguments: PathArguments::Bare },
    );
    Path { leading_colon: true, segments }
}

impl Inject {
    /// Reads the attribute's arguments.
    ///
    /// No arguments yield the default crate path. `crate = path` with
    /// nothing after it yields that path. An identifier other than `crate`
    /// is rejected, as are tokens after the path.
    pub fn parse(input: AttrInput) -> (r: Result<Inject, MacroError>)
        ensures
            match input {
                AttrInput::Empty => r matches Ok(i) && is_default_crate_path(i.crate_path),
                AttrInput::NameValue { name, path, trailing } => {
                    if name@ != "crate"@ {
                        r == Err::<Inject, MacroError>(MacroError::ExpectedCrate)
                    } else if trailing {
                        r == Err::<Inject, MacroError>(MacroError::TrailingTokens)
                    } else {
                        r matches Ok(i) && i.crate_path == path
                    }
                },
            },
    {
        match input {
            AttrInput::Empty => Ok(Inject { crate_path: default_crate_path() }),
            AttrInput::NameValue { name, path, trailing } => {
                if !crate_symbol().matches_ident(name.as_str()) {
                    Err(MacroError::ExpectedCrate)
                } else if trailing {
                    Err(MacroError::TrailingTokens)
                } else {
                    Ok(Inject { crate_path: path })
                }
            },
        }
    }
}

} // verus!
