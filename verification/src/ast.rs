//! A plain-value model of the pieces of a handler signature that the
//! rewrite inspects.
//!
//! The rewrite only ever reads a small part of a function's source: whether a
//! parameter carries an `inject` attribute, whether its pattern is a bare
//! identifier, and whether its type has the shape `Arc<...>`. These types
//! hold exactly that, as booleans, strings and vectors. Everything the
//! rewrite does not interpret — a parameter with an arbitrary pattern, a type
//! that is not a plain path, a generic argument that is not a type — is
//! carried as its raw source text in a `Verbatim` variant or a `text` field,
//! so that a caller can print it back out unchanged.

use vstd::prelude::*;

verus! {

/// One segment of a path: an identifier with its argument list.
#[derive(Debug, PartialEq)]
pub struct PathSegment {
    /// The segment's identifier.
    pub ident: String,
    /// The arguments attached to the segment, if any.
    pub arguments: PathArguments,
}

/// The arguments of a path segment.
#[derive(Debug, PartialEq)]
pub enum PathArguments {
    /// No argument list at all, as in `Arc`.
    Bare,
    /// Angle-bracketed arguments, as in `Arc<T>`.
    AngleBracketed(Vec<GenericArgument>),
    /// Parenthesized arguments, as in `Fn(A) -> B`.
    Parenthesized,
}

/// One angle-bracketed argument of a path segment.
#[derive(Debug, PartialEq)]
pub enum GenericArgument {
    /// A type argument.
    TypeArg(Type),
    /// Anything else — a lifetime, a const argument, a binding — kept as its
    /// source text.
    Verbatim(String),
}

/// A type, as far as the rewrite reads it.
#[derive(Debug, PartialEq)]
pub enum Type {
    /// A plain path type such as `Arc<T>`.
    Path(Path),
    /// Any other type, kept as its source text.
    Verbatim(String),
}

/// A path: an optional leading `::` and a list of segments.
#[derive(Debug, PartialEq)]
pub struct Path {
    /// Whether the path starts with `::`.
    pub leading_colon: bool,
    /// The segments, in order.
    pub segments: Vec<PathSegment>,
}

/// A parameter pattern, as far as the rewrite reads it.
#[derive(Debug, PartialEq)]
pub enum Pat {
    /// A binding to a plain identifier.
    Ident(String),
    /// Any other pattern, kept as its source text.
    Verbatim(String),
}

/// A typed (non-receiver) parameter.
#[derive(Debug, PartialEq)]
pub struct PatType {
    /// The paths of the attributes on the parameter.
    pub attrs: Vec<Path>,
    /// The parameter's pattern.
    pub pat: Pat,
    /// The parameter's type.
    pub ty: Type,
    /// The parameter's full source text, attributes included, for printing
    /// it back out unchanged.
    pub text: String,
}

/// One parameter of a handler function.
#[derive(Debug, PartialEq)]
pub enum FnArg {
    /// A `self` receiver, kept as its source text.
    Receiver(String),
    /// A typed parameter.
    Typed(PatType),
}

/// A handler function's name and parameter list.
#[derive(Debug, PartialEq)]
pub struct Signature {
    /// The function's identifier.
    pub ident: String,
    /// The parameters, in order.
    pub inputs: Vec<FnArg>,
}

/// Whether `p` is exactly the lone identifier `name`: no leading `::`, one
/// segment, no argument list.
pub open spec fn path_is_ident(p: Path, name: Seq<char>) -> bool {
    &&& !p.leading_colon
    &&& p.segments@.len() == 1
    &&& p.segments@[0].ident@ == name
    &&& p.segments@[0].arguments is Bare
}

/// String equality on the underlying character sequences.
pub fn str_eq(a: &str, b: &str) -> (r: bool)
    ensures
        r == (a@ == b@),
{
    let sa = String::from_str(a);
    let sb = String::from_str(b);
    sa == sb
}

impl Path {
    /// Whether the path is exactly the lone identifier `name`.
    pub fn is_ident(&self, name: &str) -> (r: bool)
        ensures
            r == path_is_ident(*self, name@),
    {
        if self.leading_colon {
            return false;
        }
        if self.segments.len() != 1 {
            return false;
        }
        let seg = &self.segments[0];
        match &seg.arguments {
            PathArguments::Bare => str_eq(seg.ident.as_str(), name),
            _ => false,
        }
    }
}

} // verus!
