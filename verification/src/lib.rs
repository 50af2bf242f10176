//! Dependency-injection support for web handlers.
//!
//! A handler function may mark some of its parameters as *injected*: instead
//! of being supplied by the framework's usual argument extraction, such a
//! parameter is resolved at request time from a dependency-injection
//! container that was registered with the application, using the parameter's
//! name as the lookup key.
//!
//! The crate has two halves:
//!
//! * a signature rewrite ([`rewrite::inject`]) that collects all injected
//!   parameters of a handler into one synthetic parameter and emits, for each
//!   of them, a key type tying the parameter name to the injected type; and
//! * the request-time decision ([`extract_injected`]) that turns the outcome
//!   of the container lookup into either the resolved value or an error.
//!
//! Both halves work on plain values. The token-level reading and printing of
//! source text, and the framework trait implementations that perform the
//! actual lookup, live outside this library and hand it the values it needs.

use vstd::prelude::*;

pub mod ast;
pub mod attr;
pub mod error;
pub mod rewrite;
pub mod symbols;

verus! {

use core::marker::PhantomData;

/// Ties a generated key type `K` to the injectable type `T`: the key names
/// the container entry from which a value of type `T` is resolved.
///
/// The signature rewrite emits one implementing type per injected parameter,
/// with `key` returning the parameter's name.
pub trait ContainerKey<T: ?Sized> {
    /// The container key under which `T` is registered.
    fn key() -> &'static str;
}

/// A value resolved from the container, tagged with the key type `K` that
/// named it. Handlers receive their injected parameters wrapped in this type
/// and pattern-match the value back out.
pub struct Injected<T, K>(pub T, pub PhantomData<K>);

impl<T, K> Injected<T, K> {
    /// Wraps a resolved value.
    pub fn new(injected: T) -> (r: Self)
        ensures
            r.0 == injected,
    {
        Self(injected, PhantomData)
    }
}

/// Why a request-time extraction of an injected parameter failed.
pub enum ExtractError<E> {
    /// No container was registered with the application.
    ContainerNotRegistered,
    /// The container was present but the lookup itself failed; carries the
    /// container's own error.
    ResolutionFailed(E),
}

impl<E> ExtractError<E> {
    /// The description reported to the client for this failure.
    pub fn message(&self) -> (r: &'static str)
        ensures
            self is ContainerNotRegistered ==> r@ == "Container not registered"@,
            self matches ExtractError::ResolutionFailed(_) ==> r@
                == "could not resolve injected value"@,
    {
        match self {
            ExtractError::ContainerNotRegistered => "Container not registered",
            ExtractError::ResolutionFailed(_) => "could not resolve injected value",
        }
    }
}

/// The request-time decision for one injected parameter.
///
/// `lookup` reports what the caller observed: `None` when no container was
/// registered with the application, and otherwise the container's own result
/// for resolving the key. The value returned is exactly that result, wrapped:
/// a resolved value becomes an [`Injected`], an absent container or a failed
/// resolution becomes the corresponding [`ExtractError`].
pub fn extract_injected<T, K, E>(lookup: Option<Result<T, E>>) -> (r: Result<
    Injected<T, K>,
    ExtractError<E>,
>)
    ensures
        match lookup {
            Option::None => r matches Err(e) && e is ContainerNotRegistered,
            Option::Some(res) => match res {
                Ok(v) => r matches Ok(inj) && inj.0 == v,
                Err(e) => r matches Err(x) && (x matches ExtractError::ResolutionFailed(e2)
                    && e2 == e),
            },
        },
{
    match lookup {
        Option::None => Err(ExtractError::ContainerNotRegistered),
        Option::Some(res) => match res {
            Ok(v) => Ok(Injected::new(v)),
            Err(e) => Err(ExtractError::ResolutionFailed(e)),
        },
    }
}

} // verus!
