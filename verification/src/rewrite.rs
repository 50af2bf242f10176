//! The signature rewrite behind the `inject` attribute.
//!
//! A handler's parameter list is split into the parameters that carry an
//! `inject` attribute and those that do not. Each injected parameter must be
//! a bare identifier of type `Arc<T>`; its name becomes the container key
//! under which a `T` is resolved, and a key type named after the handler and
//! the parameter is emitted to carry that name. The plain parameters stay as
//! they are, and the injected ones are replaced by one synthetic parameter
//! built from the bindings returned here.

use crate::ast::FnArg;
use crate::ast::GenericArgument;
use crate::ast::Pat;
use crate::ast::Path;
use crate::ast::PathArguments;
use crate::ast::Signature;
use crate::ast::Type;
use crate::ast::path_is_ident;
use crate::ast::str_eq;
use crate::attr::AttrInput;
use crate::attr::Inject;
use crate::attr::is_default_crate_path;
use crate::error::MacroError;
use vstd::prelude::*;

verus! {

/// Whether a parameter carries an `inject` attribute: it is a typed
/// parameter and one of its attribute paths is the lone identifier
/// `inject`.
pub open spec fn has_inject_attr(a: FnArg) -> bool {
    a matches FnArg::Typed(p) && exists|i: int|
        0 <= i < p.attrs@.len() && path_is_ident(#[trigger] p.attrs@[i], "inject"@)
}

/// The injected parameters of `inputs`, in declaration order.
pub open spec fn injected_of(inputs: Seq<FnArg>) -> Seq<FnArg> {
    inputs.filter(|a: FnArg| has_inject_attr(a))
}

/// The parameters of `inputs` that are not injected, in declaration order.
pub open spec fn plain_of(inputs: Seq<FnArg>) -> Seq<FnArg> {
    inputs.filter(|a: FnArg| !has_inject_attr(a))
}

/// Whether a parameter's pattern is a bare identifier.
pub open spec fn arg_pat_is_ident(a: FnArg) -> bool {
    a matches FnArg::Typed(p) && p.pat is Ident
}

/// The identifier a parameter binds, used as its container key; empty when
/// the pattern is not a bare identifier.
pub open spec fn arg_key(a: FnArg) -> Seq<char> {
    match a {
        FnArg::Typed(p) => match p.pat {
            Pat::Ident(name) => name@,
            Pat::Verbatim(_) => Seq::empty(),
        },
        FnArg::Receiver(_) => Seq::empty(),
    }
}

/// The `T` of a type of the shape `Arc<T>`: the type must be the path `Arc`
/// alone — no leading `::`, a single segment — with exactly one
/// angle-bracketed argument, and that argument must be a type.
pub open spec fn arc_inner(t: Type) -> Option<Type> {
    match t {
        Type::Path(p) => {
            if !p.leading_colon && p.segments@.len() == 1 && p.segments@[0].ident@ == "Arc"@ {
                match p.segments@[0].arguments {
                    PathArguments::AngleBracketed(args) => {
                        if args@.len() == 1 {
                            match args@[0] {
                                GenericArgument::TypeArg(inner) => Option::Some(inner),
                                GenericArgument::Verbatim(_) => Option::None,
                            }
                        } else {
                            Option::None
                        }
                    },
                    _ => Option::None,
                }
            } else {
                Option::None
            }
        },
        Type::Verbatim(_) => Option::None,
    }
}

/// The `Arc` inner type of a parameter's type.
pub open spec fn arg_arc_inner(a: FnArg) -> Option<Type> {
    match a {
        FnArg::Typed(p) => arc_inner(p.ty),
        FnArg::Receiver(_) => Option::None,
    }
}

/// The name of the key type emitted for parameter `key` of handler
/// `fn_ident`.
pub open spec fn key_struct_name(fn_ident: Seq<char>, key: Seq<char>) -> Seq<char> {
    "__"@ + fn_ident + "_"@ + key + "_Key"@
}

/// Everything emitted for one injected parameter: the parameter's name,
/// which is also the container key; the name of the key type to declare; and
/// the injected type.
#[derive(Debug, PartialEq)]
pub struct InjectedBinding {
    /// The parameter's identifier, used as the container key.
    pub key: String,
    /// The name of the emitted key type.
    pub struct_ident: String,
    /// The type inside the parameter's `Arc<...>`.
    pub ty: Type,
}

/// The rewritten handler: the path under which generated code refers to
/// this crate, the handler's name, the parameters left as they were, and one
/// binding per injected parameter, all in declaration order.
#[derive(Debug, PartialEq)]
pub struct Expanded {
    /// The crate path from the attribute's arguments.
    pub crate_path: Path,
    /// The handler's identifier.
    pub fn_ident: String,
    /// The parameters that carried no `inject` attribute.
    pub plain_inputs: Vec<FnArg>,
    /// One binding per injected parameter.
    pub bindings: Vec<InjectedBinding>,
}

/// Whether a parameter carries an `inject` attribute.
#[verifier::loop_isolation(false)]
pub fn arg_has_inject_attr(a: &FnArg) -> (r: bool)
    ensures
        r == has_inject_attr(*a),
{
    match a {
        FnArg::Typed(p) => {
            let mut i: usize = 0;
            while i < p.attrs.len()
                invariant
                    i <= p.attrs@.len(),
                    forall|j: int| 0 <= j < i ==> !path_is_ident(#[trigger] p.attrs@[j], "inject"@),
                decreases p.attrs@.len() - i,
            {
                if p.attrs[i].is_ident("inject") {
                    proof {
                        assert(path_is_ident(p.attrs@[i as int], "inject"@));
                    }
                    return true;
                }
                i = i + 1;
            }
            false
        },
        FnArg::Receiver(_) => false,
    }
}

/// Splits a parameter list into its injected and its plain parameters, both
/// in declaration order.
fn partition_inputs(inputs: Vec<FnArg>) -> (r: (Vec<FnArg>, Vec<FnArg>))
    ensures
        r.0@ == injected_of(inputs@),
        r.1@ == plain_of(inputs@),
{
    let ghost orig = inputs@;
    let mut rest = inputs;
    let mut injected: Vec<FnArg> = Vec::new();
    let mut plain: Vec<FnArg> = Vec::new();
    let ghost mut k: int = 0;
    proof {
        assert(orig.take(0) =~= Seq::<FnArg>::empty());
        reveal(Seq::filter);
    }
    while rest.len() > 0
        invariant
            0 <= k <= orig.len(),
            rest@ == orig.skip(k),
            injected@ == injected_of(orig.take(k)),
            plain@ == plain_of(orig.take(k)),
        decreases rest@.len(),
    {
        let ghost prev_rest = rest@;
        let arg = rest.remove(0);
        proof {
            assert(prev_rest.remove(0) =~= orig.skip(k + 1));
            assert(arg == orig[k]);
            assert(orig.take(k + 1) =~= orig.take(k) + seq![orig[k]]);
        }
        if arg_has_inject_attr(&arg) {
            injected.push(arg);
            proof {
                lemma_filter_step(orig, k, |a: FnArg| has_inject_attr(a));
                lemma_filter_step(orig, k, |a: FnArg| !has_inject_attr(a));
                assert(injected@ =~= injected_of(orig.take(k + 1)));
                assert(plain@ =~= plain_of(orig.take(k + 1)));
            }
        } else {
            plain.push(arg);
            proof {
                lemma_filter_step(orig, k, |a: FnArg| has_inject_attr(a));
                lemma_filter_step(orig, k, |a: FnArg| !has_inject_attr(a));
                assert(injected@ =~= injected_of(orig.take(k + 1)));
                assert(plain@ =~= plain_of(orig.take(k + 1)));
            }
        }
        proof {
            k = k + 1;
        }
    }
    proof {
        assert(orig.take(k) =~= orig);
    }
    (injected, plain)
}

/// Builds the name of the key type for parameter `key` of handler
/// `fn_ident`.
fn make_key_struct_name(fn_ident: &str, key: &str) -> (r: String)
    ensures
        r@ == key_struct_name(fn_ident@, key@),
{
    let mut s = String::from_str("__");
    s.append(fn_ident);
    s.append("_");
    s.append(key);
    s.append("_Key");
    s
}

/// Takes the `T` out of a type of the shape `Arc<T>`, or reports that the
/// type does not have that shape. `index` is the position of the parameter
/// being examined among the injected parameters, carried into the error.
pub fn get_arc_ty(ty: Type, index: usize) -> (r: Result<Type, MacroError>)
    ensures
        match arc_inner(ty) {
            Option::Some(inner) => r == Ok::<Type, MacroError>(inner),
            Option::None => r == Err::<Type, MacroError>(MacroError::NotArc { index }),
        },
{
    match ty {
        Type::Path(p) => {
            if p.leading_colon {
                return Err(MacroError::NotArc { index });
            }
            let mut segments = p.segments;
            if segments.len() != 1 {
                return Err(MacroError::NotArc { index });
            }
            let seg = segments.pop().unwrap();
            if !str_eq(seg.ident.as_str(), "Arc") {
                return Err(MacroError::NotArc { index });
            }
            match seg.arguments {
                PathArguments::AngleBracketed(args) => {
                    let mut args = args;
                    if args.len() != 1 {
                        return Err(MacroError::NotArc { index });
                    }
                    match args.pop().unwrap() {
                        GenericArgument::TypeArg(inner) => Ok(inner),
                        GenericArgument::Verbatim(_) => Err(MacroError::NotArc { index }),
                    }
                },
                _ => Err(MacroError::NotArc { index }),
            }
        },
        Type::Verbatim(_) => Err(MacroError::NotArc { index }),
    }
}

/// Whether a type has the shape `Arc<T>`.
fn is_arc_type(ty: &Type) -> (r: bool)
    ensures
        r == (arc_inner(*ty) is Some),
{
    match ty {
        Type::Path(p) => {
            if p.leading_colon {
                return false;
            }
            if p.segments.len() != 1 {
                return false;
            }
            let seg = &p.segments[0];
            if !str_eq(seg.ident.as_str(), "Arc") {
                return false;
            }
            match &seg.arguments {
                PathArguments::AngleBracketed(args) => {
                    if args.len() != 1 {
                        return false;
                    }
                    match &args[0] {
                        GenericArgument::TypeArg(_) => true,
                        GenericArgument::Verbatim(_) => false,
                    }
                },
                _ => false,
            }
        },
        Type::Verbatim(_) => false,
    }
}

/// Whether a parameter's pattern is a bare identifier.
fn arg_pat_ident_ok(a: &FnArg) -> (r: bool)
    ensures
        r == arg_pat_is_ident(*a),
{
    match a {
        FnArg::Typed(p) => matches!(p.pat, Pat::Ident(_)),
        FnArg::Receiver(_) => false,
    }
}

/// The position of the first parameter whose pattern is not a bare
/// identifier, if any.
#[verifier::loop_isolation(false)]
fn first_bad_pattern(args: &Vec<FnArg>) -> (r: Option<usize>)
    ensures
        match r {
            Option::Some(i) => i < args@.len() && !arg_pat_is_ident(args@[i as int]) && forall|
                j: int,
            | 0 <= j < i ==> arg_pat_is_ident(#[trigger] args@[j]),
            Option::None => forall|j: int|
                0 <= j < args@.len() ==> arg_pat_is_ident(#[trigger] args@[j]),
        },
{
    let mut i: usize = 0;
    while i < args.len()
        invariant
            i <= args@.len(),
            forall|j: int| 0 <= j < i ==> arg_pat_is_ident(#[trigger] args@[j]),
        decreases args@.len() - i,
    {
        if !arg_pat_ident_ok(&args[i]) {
            return Some(i);
        }
        i = i + 1;
    }
    None
}

/// The position of the first parameter whose type is not of the shape
/// `Arc<...>`, if any.
#[verifier::loop_isolation(false)]
fn first_non_arc(args: &Vec<FnArg>) -> (r: Option<usize>)
    ensures
        match r {
            Option::Some(i) => i < args@.len() && arg_arc_inner(args@[i as int]) is None && forall|
                j: int,
            | 0 <= j < i ==> arg_arc_inner(#[trigger] args@[j]) is Some,
            Option::None => forall|j: int|
                0 <= j < args@.len() ==> arg_arc_inner(#[trigger] args@[j]) is Some,
        },
{
    let mut i: usize = 0;
    while i < args.len()
        invariant
            i <= args@.len(),
            forall|j: int| 0 <= j < i ==> arg_arc_inner(#[trigger] args@[j]) is Some,
        decreases args@.len() - i,
    {
        let ok = match &args[i] {
            FnArg::Typed(p) => is_arc_type(&p.ty),
            FnArg::Receiver(_) => false,
        };
        if !ok {
            return Some(i);
        }
        i = i + 1;
    }
    None
}

/// Builds one binding per injected parameter, in order: the parameter's
/// name, the key type named after the handler and the parameter, and the
/// type inside the parameter's `Arc<...>`.
#[verifier::loop_isolation(false)]
fn build_bindings(fn_ident: &str, args: Vec<FnArg>) -> (r: Vec<InjectedBinding>)
    requires
        forall|j: int| 0 <= j < args@.len() ==> arg_pat_is_ident(#[trigger] args@[j]),
        forall|j: int| 0 <= j < args@.len() ==> arg_arc_inner(#[trigger] args@[j]) is Some,
    ensures
        r@.len() == args@.len(),
        forall|j: int|
            0 <= j < args@.len() ==> {
                &&& (#[trigger] r@[j]).key@ == arg_key(args@[j])
                &&& r@[j].struct_ident@ == key_struct_name(fn_ident@, arg_key(args@[j]))
                &&& Option::Some(r@[j].ty) == arg_arc_inner(args@[j])
            },
{
    let ghost orig = args@;
    let mut rest = args;
    let mut bindings: Vec<InjectedBinding> = Vec::new();
    while rest.len() > 0
        invariant
            bindings@.len() + rest@.len() == orig.len(),
            rest@ == orig.skip(bindings@.len() as int),
            forall|j: int|
                0 <= j < bindings@.len() ==> {
                    &&& (#[trigger] bindings@[j]).key@ == arg_key(orig[j])
                    &&& bindings@[j].struct_ident@ == key_struct_name(fn_ident@, arg_key(orig[j]))
                    &&& Option::Some(bindings@[j].ty) == arg_arc_inner(orig[j])
                },
        decreases rest@.len(),
    {
        let ghost k = bindings@.len() as int;
        let ghost prev_rest = rest@;
        let i = bindings.len();
        let arg = rest.remove(0);
        proof {
            assert(prev_rest.remove(0) =~= orig.skip(k + 1));
            assert(arg == orig[k]);
        }
        match arg {
            FnArg::Typed(p) => {
                match p.pat {
                    Pat::Ident(key) => {
                        let ty = match get_arc_ty(p.ty, i) {
                            Ok(inner) => inner,
                            Err(_) => unreached(),
                        };
                        let struct_ident = make_key_struct_name(fn_ident, key.as_str());
                        bindings.push(InjectedBinding { key, struct_ident, ty });
                    },
                    Pat::Verbatim(_) => unreached(),
                }
            },
            FnArg::Receiver(_) => unreached(),
        }
    }
    bindings
}

/// What a successful rewrite of `item` under `attr` contains: the crate
/// path the attribute asked for, the handler's own name, the plain
/// parameters unchanged and in order, and one binding per injected
/// parameter, in order, tying the parameter's name to its key type and its
/// `Arc` inner type.
pub open spec fn expanded_ok(attr: AttrInput, item: Signature, exp: Expanded) -> bool {
    let inj = injected_of(item.inputs@);
    &&& match attr {
        AttrInput::Empty => is_default_crate_path(exp.crate_path),
        AttrInput::NameValue { path, .. } => exp.crate_path == path,
    }
    &&& exp.fn_ident == item.ident
    &&& exp.plain_inputs@ == plain_of(item.inputs@)
    &&& exp.bindings@.len() == inj.len()
    &&& forall|j: int|
        0 <= j < inj.len() ==> {
            &&& (#[trigger] exp.bindings@[j]).key@ == arg_key(inj[j])
            &&& exp.bindings@[j].struct_ident@ == key_struct_name(item.ident@, arg_key(inj[j]))
            &&& Option::Some(exp.bindings@[j].ty) == arg_arc_inner(inj[j])
        }
}

/// Rewrites a handler signature for injection.
///
/// The attribute's arguments choose the crate path. Every parameter that
/// carries an `inject` attribute must bind a bare identifier — reported
/// first, whichever parameter it concerns — and must be typed `Arc<...>`;
/// the result keeps the remaining parameters as they are and returns one
/// binding per injected parameter. Positions in the two parameter errors
/// count only the injected parameters, in declaration order.
pub fn inject(attr: AttrInput, item: Signature) -> (r: Result<Expanded, MacroError>)
    ensures
        ({
            let inj = injected_of(item.inputs@);
            let bad_name = attr matches AttrInput::NameValue { name, .. } && name@ != "crate"@;
            let has_trailing = attr matches AttrInput::NameValue { name, trailing, .. } && name@
                == "crate"@ && trailing;
            if bad_name {
                r == Err::<Expanded, MacroError>(MacroError::ExpectedCrate)
            } else if has_trailing {
                r == Err::<Expanded, MacroError>(MacroError::TrailingTokens)
            } else if exists|i: int| 0 <= i < inj.len() && !arg_pat_is_ident(#[trigger] inj[i]) {
                &&& r matches Err(e)
                &&& e matches MacroError::PatternNotIdent { index }
                &&& index < inj.len()
                &&& !arg_pat_is_ident(inj[index as int])
                &&& forall|j: int| 0 <= j < index ==> arg_pat_is_ident(#[trigger] inj[j])
            } else if exists|i: int|
                0 <= i < inj.len() && arg_arc_inner(#[trigger] inj[i]) is None {
                &&& r matches Err(e)
                &&& e matches MacroError::NotArc { index }
                &&& index < inj.len()
                &&& arg_arc_inner(inj[index as int]) is None
                &&& forall|j: int| 0 <= j < index ==> arg_arc_inner(#[trigger] inj[j]) is Some
            } else {
                r matches Ok(exp) && expanded_ok(attr, item, exp)
            }
        }),
{
    let parsed = match Inject::parse(attr) {
        Ok(p) => p,
        Err(e) => {
            return Err(e);
        },
    };
    let Signature { ident: fn_ident, inputs } = item;
    let (injected, plain) = partition_inputs(inputs);
    match first_bad_pattern(&injected) {
        Some(i) => {
            return Err(MacroError::PatternNotIdent { index: i });
        },
        None => {},
    }
    match first_non_arc(&injected) {
        Some(i) => {
            return Err(MacroError::NotArc { index: i });
        },
        None => {},
    }
    let bindings = build_bindings(fn_ident.as_str(), injected);
    Ok(Expanded { crate_path: parsed.crate_path, fn_ident, plain_inputs: plain, bindings })
}

/// The character for decimal digit `d`.
pub open spec fn digit_char(d: nat) -> char
    recommends
        d < 10,
{
    ((48 + d) as u8) as char
}

/// The decimal digits of `n`, most significant first.
pub open spec fn dec_digits(n: nat) -> Seq<char>
    decreases n,
{
    if n < 10 {
        seq![digit_char(n)]
    } else {
        dec_digits(n / 10).push(digit_char(n % 10))
    }
}

/// The one-character string for decimal digit `d`.
fn digit_str(d: usize) -> (r: &'static str)
    requires
        d < 10,
    ensures
        r@ == seq![digit_char(d as nat)],
{
    proof {
        reveal_strlit("0");
        reveal_strlit("1");
        reveal_strlit("2");
        reveal_strlit("3");
        reveal_strlit("4");
        reveal_strlit("5");
        reveal_strlit("6");
        reveal_strlit("7");
        reveal_strlit("8");
        reveal_strlit("9");
    }
    let r = match d {
        0 => "0",
        1 => "1",
        2 => "2",
        3 => "3",
        4 => "4",
        5 => "5",
        6 => "6",
        7 => "7",
        8 => "8",
        _ => "9",
    };
    proof {
        assert(r@ =~= seq![digit_char(d as nat)]);
    }
    r
}

/// Appends the decimal digits of `n` to `s`.
fn push_dec_digits(n: usize, s: &mut String)
    ensures
        final(s)@ == old(s)@ + dec_digits(n as nat),
    decreases n,
{
    if n < 10 {
        s.append(digit_str(n));
        proof {
            assert(old(s)@ + seq![digit_char(n as nat)] =~= old(s)@ + dec_digits(n as nat));
        }
    } else {
        push_dec_digits(n / 10, s);
        s.append(digit_str(n % 10));
        proof {
            assert((old(s)@ + dec_digits((n / 10) as nat)) + seq![digit_char((n % 10) as nat)]
                =~= old(s)@ + dec_digits(n as nat));
        }
    }
}

/// The name of the synthetic parameter's type for `num_args` injected
/// parameters: `Injected` alone when there is at most one, and `Injected`
/// followed by the count in decimal otherwise.
pub fn synthetic_type_ident(num_args: usize) -> (r: String)
    ensures
        num_args > 1 ==> r@ == "Injected"@ + dec_digits(num_args as nat),
        num_args <= 1 ==> r@ == "Injected"@,
{
    let mut s = String::from_str("Injected");
    if num_args > 1 {
        push_dec_digits(num_args, &mut s);
    }
    s
}

/// One step of filtering: extending a prefix by its next element extends the
/// filtered prefix by that element exactly when the predicate holds of it.
proof fn lemma_filter_step(s: Seq<FnArg>, k: int, pred: spec_fn(FnArg) -> bool)
    requires
        0 <= k < s.len(),
    ensures
        s.take(k + 1).filter(pred) == if pred(s[k]) {
            s.take(k).filter(pred).push(s[k])
        } else {
            s.take(k).filter(pred)
        },
{
    reveal_with_fuel(Seq::filter, 3);
    assert(s.take(k + 1) =~= s.take(k) + seq![s[k]]);
    Seq::filter_distributes_over_add(s.take(k), seq![s[k]], pred);
    assert(seq![s[k]].drop_last() =~= Seq::<FnArg>::empty());
    if pred(s[k]) {
        assert(s.take(k).filter(pred) + seq![s[k]].filter(pred) =~= s.take(k).filter(pred).push(
            s[k],
        ));
    } else {
        assert(s.take(k).filter(pred) + seq![s[k]].filter(pred) =~= s.take(k).filter(pred));
    }
}

} // verus!
