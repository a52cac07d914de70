//! The two capabilities the composition is generic over.

use vstd::prelude::*;
use crate::addr::NetAddr;
use crate::task::PollTask;

verus! {

/// A capability that resolves a logical target into a [`NetAddr`].
///
/// `lookup` consumes the target, begins the work, and returns the in-flight
/// handle at once; polling that handle yields the address or a
/// resolver-defined error. A resolver may be stateful — what one lookup does
/// to it, and which handle comes back, is its own business, published as
/// `lookup_spec`.
pub trait Resolve<Target>: Sized {
    /// The resolver's own error type.
    type Error;

    /// The in-flight lookup handle.
    type Future: PollTask<Item = NetAddr, Error = Self::Error>;

    /// The relation one lookup call establishes between the resolver before
    /// and after the call, the target looked up, and the handle returned.
    spec fn lookup_spec(pre: Self, post: Self, target: Target, fut: Self::Future) -> bool;

    /// Begin resolving `target`; return the in-flight handle.
    fn lookup(&mut self, target: Target) -> (fut: Self::Future)
        ensures
            Self::lookup_spec(*old(self), *final(self), target, fut),
    ;
}

/// A capability that establishes a connection to a target of type `A`.
///
/// `connect` consumes the target, begins the attempt, and returns the
/// in-flight handle at once; polling that handle yields the established
/// connection or an establisher-defined error. What one call does to the
/// service, and which handle comes back, is published as `connect_spec`.
pub trait ConnectService<A>: Sized {
    /// The established connection.
    type Response;

    /// The establisher's own error type.
    type Error;

    /// The in-flight connection attempt.
    type Future: PollTask<Item = Self::Response, Error = Self::Error>;

    /// The relation one connect call establishes between the service before
    /// and after the call, the target connected to, and the handle returned.
    spec fn connect_spec(pre: Self, post: Self, target: A, fut: Self::Future) -> bool;

    /// Begin connecting to `target`; return the in-flight handle.
    fn connect(&mut self, target: A) -> (fut: Self::Future)
        ensures
            Self::connect_spec(*old(self), *final(self), target, fut),
    ;
}

/// Cheap duplication into an independent copy.
///
/// A connector must take a private copy of its establisher for each connect
/// call, so the establisher capability has to be duplicable without the
/// copies sharing mutable per-attempt state. An implementation says in
/// `dup_spec` how a copy relates to the original; for a value-semantics
/// implementation the copy is simply equal to it.
pub trait Duplicate: Sized {
    /// How a copy relates to the value it was taken from.
    spec fn dup_spec(orig: Self, copy: Self) -> bool;

    /// Take an independent copy.
    fn duplicate(&self) -> (copy: Self)
        ensures
            Self::dup_spec(*self, copy),
    ;
}

} // verus!
