//! The composition: one resolver and one establisher behind a single
//! connect capability that accepts the logical target directly.

use vstd::prelude::*;
use crate::addr::NetAddr;
use crate::service::{ConnectService, Duplicate, Resolve};
use crate::task::{PollTask, TaskPoll};

verus! {

/// Why a connect operation failed: in resolution or in establishment.
///
/// The originating collaborator's error is carried unmodified; there are no
/// other failure kinds at this layer.
#[derive(PartialEq, Eq, Debug)]
pub enum ConnectorError<RE, CE> {
    /// Resolution failed.
    Resolve(RE),
    /// Connection establishment failed.
    Connect(CE),
}

/// The live phase of a connect operation: exactly one in-flight handle.
pub enum ConnectState<RF, CF> {
    /// Resolution is in flight.
    Resolving(RF),
    /// Establishment is in flight; resolution already succeeded.
    Connecting(CF),
}

/// One resolver and one establisher, composed into a connect capability on
/// the resolver's target type.
///
/// A connector holds no per-request state: each connect call starts one
/// lookup on the shared resolver and takes a private copy of the
/// establisher, so the operations it hands out are independent.
pub struct Connector<C, R> {
    /// The establisher; every connect call takes its own copy.
    pub connect: C,
    /// The resolver, shared by all connect calls.
    pub resolver: R,
}

impl<C, R> Connector<C, R> {
    /// Compose the establisher `connect` and the resolver `resolver`.
    pub fn new(connect: C, resolver: R) -> (r: Connector<C, R>)
        ensures
            r.connect == connect,
            r.resolver == resolver,
    {
        Connector { connect, resolver }
    }
}

/// A single-use, in-flight connect operation: resolve, then connect.
///
/// The two ghost fields are history notes: once the operation has crossed
/// into `Connecting`, `resolved` records the address resolution produced and
/// `attempt` records the establishment handle exactly as the establisher
/// returned it, before its first poll. They let contracts name what the
/// operation did without re-polling anything.
pub struct ConnectFuture<C, R, Target> where C: ConnectService<NetAddr>, R: Resolve<Target> {
    /// The live phase and its handle.
    pub state: ConnectState<R::Future, C::Future>,
    /// This operation's private copy of the establisher.
    pub connector: C,
    /// History note: the address resolution produced, once known.
    pub resolved: Ghost<Option<NetAddr>>,
    /// History note: the establishment handle as first returned.
    pub attempt: Ghost<Option<C::Future>>,
}

/// Resolution of `rf` succeeded, in one poll, with address `addr`.
pub open spec fn resolved_to<Target, R: Resolve<Target>>(rf: R::Future, addr: NetAddr) -> bool {
    exists|done: R::Future| R::Future::poll_spec(rf, done, TaskPoll::Ready(addr))
}

/// The composed outcome `r` reports exactly one poll of the establishment
/// handle, taking it from `cf` to `cf2`, with a failure tagged `Connect`.
pub open spec fn connect_poll_reported<C: ConnectService<NetAddr>, RE>(
    cf: C::Future,
    cf2: C::Future,
    r: TaskPoll<C::Response, ConnectorError<RE, C::Error>>,
) -> bool {
    match r {
        TaskPoll::Pending => C::Future::poll_spec(cf, cf2, TaskPoll::Pending),
        TaskPoll::Ready(conn) => C::Future::poll_spec(cf, cf2, TaskPoll::Ready(conn)),
        TaskPoll::Failed(ConnectorError::Connect(e)) => C::Future::poll_spec(
            cf,
            cf2,
            TaskPoll::Failed(e),
        ),
        TaskPoll::Failed(ConnectorError::Resolve(_)) => false,
    }
}

/// One advancement that stayed in `Resolving`: the lookup handle was polled
/// once and was still pending or failed; the establisher copy and the
/// history notes are untouched, and establishment was not begun.
pub open spec fn resolving_step<C, R, Target>(
    pre: ConnectFuture<C, R, Target>,
    post: ConnectFuture<C, R, Target>,
    r: TaskPoll<C::Response, ConnectorError<R::Error, C::Error>>,
) -> bool where C: ConnectService<NetAddr>, R: Resolve<Target> {
    &&& pre.state matches ConnectState::Resolving(rf)
    &&& post.state matches ConnectState::Resolving(rf2)
    &&& post.connector == pre.connector
    &&& post.resolved == pre.resolved
    &&& post.attempt == pre.attempt
    &&& match r {
        TaskPoll::Pending => R::Future::poll_spec(rf, rf2, TaskPoll::Pending),
        TaskPoll::Failed(ConnectorError::Resolve(e)) => R::Future::poll_spec(
            rf,
            rf2,
            TaskPoll::Failed(e),
        ),
        _ => false,
    }
}

/// The one advancement that crosses from `Resolving` to `Connecting`: the
/// lookup handle yielded an address; the establisher copy was invoked on
/// exactly that address, once; and the fresh establishment handle was polled
/// once within the same advancement, its outcome reported as `r`.
pub open spec fn crossing_step<C, R, Target>(
    pre: ConnectFuture<C, R, Target>,
    post: ConnectFuture<C, R, Target>,
    r: TaskPoll<C::Response, ConnectorError<R::Error, C::Error>>,
) -> bool where C: ConnectService<NetAddr>, R: Resolve<Target> {
    &&& pre.state matches ConnectState::Resolving(rf)
    &&& post.state matches ConnectState::Connecting(cf2)
    &&& post.resolved@ matches Some(addr)
    &&& post.attempt@ matches Some(cf0)
    &&& resolved_to::<Target, R>(rf, addr)
    &&& C::connect_spec(pre.connector, post.connector, addr, cf0)
    &&& connect_poll_reported::<C, R::Error>(cf0, cf2, r)
}

/// One advancement while already `Connecting`: the establishment handle was
/// polled once; the establisher copy and the history notes are untouched.
/// There is no way back to `Resolving`.
pub open spec fn connecting_step<C, R, Target>(
    pre: ConnectFuture<C, R, Target>,
    post: ConnectFuture<C, R, Target>,
    r: TaskPoll<C::Response, ConnectorError<R::Error, C::Error>>,
) -> bool where C: ConnectService<NetAddr>, R: Resolve<Target> {
    &&& pre.state matches ConnectState::Connecting(cf)
    &&& post.state matches ConnectState::Connecting(cf2)
    &&& post.connector == pre.connector
    &&& post.resolved == pre.resolved
    &&& post.attempt == pre.attempt
    &&& connect_poll_reported::<C, R::Error>(cf, cf2, r)
}

/// Everything one advancement of a connect operation may do: stay resolving,
/// cross to connecting, or stay connecting. The three cases are mutually
/// exclusive.
pub open spec fn connect_step<C, R, Target>(
    pre: ConnectFuture<C, R, Target>,
    post: ConnectFuture<C, R, Target>,
    r: TaskPoll<C::Response, ConnectorError<R::Error, C::Error>>,
) -> bool where C: ConnectService<NetAddr>, R: Resolve<Target> {
    ||| resolving_step(pre, post, r)
    ||| crossing_step(pre, post, r)
    ||| connecting_step(pre, post, r)
}

impl<C, R, Target> PollTask for ConnectFuture<C, R, Target> where
    C: ConnectService<NetAddr>,
    R: Resolve<Target>,
 {
    type Item = C::Response;

    type Error = ConnectorError<R::Error, C::Error>;

    open spec fn poll_spec(
        pre: Self,
        post: Self,
        r: TaskPoll<C::Response, ConnectorError<R::Error, C::Error>>,
    ) -> bool {
        connect_step(pre, post, r)
    }

    /// Advance the operation: poll the live handle; if resolution just
    /// succeeded, begin establishment and poll the new handle within this
    /// same call.
    fn poll(&mut self) -> (r: TaskPoll<C::Response, ConnectorError<R::Error, C::Error>>) {
        match &mut self.state {
            ConnectState::Resolving(rf) => {
                let looked_up = rf.poll();
                match looked_up {
                    TaskPoll::Pending => TaskPoll::Pending,
                    TaskPoll::Failed(e) => TaskPoll::Failed(ConnectorError::Resolve(e)),
                    TaskPoll::Ready(address) => {
                        let mut cf = self.connector.connect(address);
                        self.resolved = Ghost(Some(address));
                        self.attempt = Ghost(Some(cf));
                        let first = cf.poll();
                        self.state = ConnectState::Connecting(cf);
                        match first {
                            TaskPoll::Pending => TaskPoll::Pending,
                            TaskPoll::Ready(conn) => TaskPoll::Ready(conn),
                            TaskPoll::Failed(e) => TaskPoll::Failed(ConnectorError::Connect(e)),
                        }
                    },
                }
            },
            ConnectState::Connecting(cf) => {
                match cf.poll() {
                    TaskPoll::Pending => TaskPoll::Pending,
                    TaskPoll::Ready(conn) => TaskPoll::Ready(conn),
                    TaskPoll::Failed(e) => TaskPoll::Failed(ConnectorError::Connect(e)),
                }
            },
        }
    }
}

impl<C, R, Target> ConnectService<Target> for Connector<C, R> where
    C: ConnectService<NetAddr> + Duplicate,
    R: Resolve<Target>,
 {
    type Response = C::Response;

    type Error = ConnectorError<R::Error, C::Error>;

    type Future = ConnectFuture<C, R, Target>;

    /// One connect call starts exactly one lookup, on the target given, and
    /// hands the fresh operation a copy of the establisher; the operation
    /// begins in `Resolving` with blank history notes, and no establishment
    /// work has been started.
    open spec fn connect_spec(
        pre: Self,
        post: Self,
        target: Target,
        fut: Self::Future,
    ) -> bool {
        &&& fut.state matches ConnectState::Resolving(rf)
        &&& R::lookup_spec(pre.resolver, post.resolver, target, rf)
        &&& C::dup_spec(pre.connect, fut.connector)
        &&& post.connect == pre.connect
        &&& fut.resolved@ is None
        &&& fut.attempt@ is None
    }

    /// Begin a connect operation for `target`: start the lookup and return
    /// the operation at once, without blocking; no establishment work
    /// happens until the operation is advanced.
    fn connect(&mut self, target: Target) -> (fut: Self::Future) {
        let handle = self.resolver.lookup(target);
        ConnectFuture {
            state: ConnectState::Resolving(handle),
            connector: self.connect.duplicate(),
            resolved: Ghost(None),
            attempt: Ghost(None),
        }
    }
}

} // verus!
