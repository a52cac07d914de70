//! Laws about whole runs of advancements of one connect operation.
//!
//! A run is the trace a caller's scheduler produces: the successive values
//! of a [`ConnectFuture`] together with the outcome each advancement
//! reported. Every law here is proved from [`connect_step`] alone, so it
//! holds for every resolver and establisher, whatever their own transition
//! relations say.

use vstd::prelude::*;
use crate::addr::NetAddr;
use crate::connector::{
    connect_poll_reported, connect_step, connecting_step, crossing_step, resolving_step,
    ConnectFuture, ConnectState, ConnectorError,
};
use crate::service::{ConnectService, Resolve};
use crate::task::{PollTask, TaskPoll};

verus! {

/// `ops` are the successive values of one connect operation and `outs` the
/// outcomes its advancements reported: advancing `ops[i]` produced
/// `ops[i + 1]` and returned `outs[i]`.
pub open spec fn is_run<C, R, Target>(
    ops: Seq<ConnectFuture<C, R, Target>>,
    outs: Seq<TaskPoll<C::Response, ConnectorError<R::Error, C::Error>>>,
) -> bool where C: ConnectService<NetAddr>, R: Resolve<Target> {
    &&& ops.len() == outs.len() + 1
    &&& forall|i: int|
        0 <= i < outs.len() ==> #[trigger] connect_step(ops[i], ops[i + 1], outs[i])
}

/// Advancement `k` of the run is the crossing from `Resolving` to
/// `Connecting`.
pub open spec fn crossed_at<C, R, Target>(
    ops: Seq<ConnectFuture<C, R, Target>>,
    outs: Seq<TaskPoll<C::Response, ConnectorError<R::Error, C::Error>>>,
    k: int,
) -> bool where C: ConnectService<NetAddr>, R: Resolve<Target> {
    &&& 0 <= k < outs.len()
    &&& crossing_step(ops[k], ops[k + 1], outs[k])
}

/// Law: an operation still `Resolving` has always been `Resolving`, with its
/// establisher copy and history notes untouched since the start — no
/// establishment work has ever begun.
pub proof fn law_resolving_history<C, R, Target>(
    ops: Seq<ConnectFuture<C, R, Target>>,
    outs: Seq<TaskPoll<C::Response, ConnectorError<R::Error, C::Error>>>,
    j: int,
) where C: ConnectService<NetAddr>, R: Resolve<Target>
    requires
        is_run(ops, outs),
        0 <= j < ops.len(),
        ops[j].state is Resolving,
    ensures
        forall|i: int| 0 <= i <= j ==> (#[trigger] ops[i]).state is Resolving,
        forall|i: int| 0 <= i <= j ==> (#[trigger] ops[i]).connector == ops[j].connector,
        forall|i: int| 0 <= i <= j ==> (#[trigger] ops[i]).resolved == ops[j].resolved,
        forall|i: int| 0 <= i <= j ==> (#[trigger] ops[i]).attempt == ops[j].attempt,
    decreases j,
{
    if j > 0 {
        let m = j - 1;
        assert(connect_step(ops[m], ops[m + 1], outs[m]));
        assert(resolving_step(ops[m], ops[m + 1], outs[m]));
        law_resolving_history(ops, outs, j - 1);
    }
}

/// Law: once `Connecting`, an operation stays `Connecting`, with its
/// establisher copy and history notes unchanged — the transition is
/// one-directional.
pub proof fn law_connecting_persists<C, R, Target>(
    ops: Seq<ConnectFuture<C, R, Target>>,
    outs: Seq<TaskPoll<C::Response, ConnectorError<R::Error, C::Error>>>,
    i: int,
    j: int,
) where C: ConnectService<NetAddr>, R: Resolve<Target>
    requires
        is_run(ops, outs),
        0 <= i <= j < ops.len(),
        ops[i].state is Connecting,
    ensures
        ops[j].state is Connecting,
        ops[j].connector == ops[i].connector,
        ops[j].resolved == ops[i].resolved,
        ops[j].attempt == ops[i].attempt,
        forall|m: int| i <= m < j ==> connecting_step(ops[m], ops[m + 1], outs[m]),
    decreases j - i,
{
    if i < j {
        assert(connect_step(ops[i], ops[i + 1], outs[i]));
        assert(connecting_step(ops[i], ops[i + 1], outs[i]));
        law_connecting_persists(ops, outs, i + 1, j);
    }
}

/// Law: an operation that began `Resolving` and is now `Connecting` crossed
/// at some advancement `k`: before it, only resolution, on the untouched
/// establisher copy; from it on, only establishment, with stable history
/// notes.
pub proof fn law_crossing_exists<C, R, Target>(
    ops: Seq<ConnectFuture<C, R, Target>>,
    outs: Seq<TaskPoll<C::Response, ConnectorError<R::Error, C::Error>>>,
    n: int,
) where C: ConnectService<NetAddr>, R: Resolve<Target>
    requires
        is_run(ops, outs),
        0 <= n < ops.len(),
        ops[0].state is Resolving,
        ops[n].state is Connecting,
    ensures
        exists|k: int|
            {
                &&& #[trigger] crossed_at(ops, outs, k)
                &&& k < n
                &&& forall|i: int| 0 <= i <= k ==> (#[trigger] ops[i]).state is Resolving
                &&& forall|i: int|
                    0 <= i <= k ==> (#[trigger] ops[i]).connector == ops[0].connector
                &&& forall|i: int| k < i <= n ==> (#[trigger] ops[i]).state is Connecting
                &&& forall|i: int|
                    k < i <= n ==> (#[trigger] ops[i]).connector == ops[n].connector
                        && ops[i].resolved == ops[n].resolved && ops[i].attempt == ops[n].attempt
                &&& forall|m: int| k < m < n ==> connecting_step(ops[m], ops[m + 1], outs[m])
            },
    decreases n,
{
    if ops[n - 1].state is Resolving {
        let k = n - 1;
        assert(connect_step(ops[k], ops[k + 1], outs[k]));
        assert(crossing_step(ops[k], ops[k + 1], outs[k]));
        law_resolving_history(ops, outs, k);
        assert(crossed_at(ops, outs, k));
    } else {
        law_crossing_exists(ops, outs, n - 1);
        let k = choose|k: int|
            {
                &&& #[trigger] crossed_at(ops, outs, k)
                &&& k < n - 1
                &&& forall|i: int| 0 <= i <= k ==> (#[trigger] ops[i]).state is Resolving
                &&& forall|i: int|
                    0 <= i <= k ==> (#[trigger] ops[i]).connector == ops[0].connector
                &&& forall|i: int| k < i <= n - 1 ==> (#[trigger] ops[i]).state is Connecting
                &&& forall|i: int|
                    k < i <= n - 1 ==> (#[trigger] ops[i]).connector == ops[n - 1].connector
                        && ops[i].resolved == ops[n - 1].resolved && ops[i].attempt == ops[n
                        - 1].attempt
                &&& forall|m: int| k < m < n - 1 ==> connecting_step(ops[m], ops[m + 1], outs[m])
            };
        law_connecting_persists(ops, outs, n - 1, n);
        assert(crossed_at(ops, outs, k));
    }
}

/// Law: an operation crosses at most once — there are never two connection
/// attempts.
pub proof fn law_crossing_unique<C, R, Target>(
    ops: Seq<ConnectFuture<C, R, Target>>,
    outs: Seq<TaskPoll<C::Response, ConnectorError<R::Error, C::Error>>>,
    k: int,
    j: int,
) where C: ConnectService<NetAddr>, R: Resolve<Target>
    requires
        is_run(ops, outs),
        crossed_at(ops, outs, k),
        crossed_at(ops, outs, j),
    ensures
        k == j,
{
    if k < j {
        law_connecting_persists(ops, outs, k + 1, j);
    } else if j < k {
        law_connecting_persists(ops, outs, j + 1, k);
    }
}

/// Law: a failure tagged with the resolver's error arises only while
/// resolving; the run never crossed, so the establisher copy taken at the
/// start was never invoked and is still held unchanged, and it was the
/// lookup handle itself that reported the error.
pub proof fn law_resolve_failure_leaves_establisher_untouched<C, R, Target>(
    ops: Seq<ConnectFuture<C, R, Target>>,
    outs: Seq<TaskPoll<C::Response, ConnectorError<R::Error, C::Error>>>,
    e: R::Error,
) where C: ConnectService<NetAddr>, R: Resolve<Target>
    requires
        is_run(ops, outs),
        outs.len() >= 1,
        ops[0].state is Resolving,
        outs.last() == TaskPoll::<C::Response, ConnectorError<R::Error, C::Error>>::Failed(
            ConnectorError::Resolve(e),
        ),
    ensures
        forall|i: int| 0 <= i < ops.len() ==> (#[trigger] ops[i]).state is Resolving,
        forall|i: int| 0 <= i < ops.len() ==> (#[trigger] ops[i]).connector == ops[0].connector,
        forall|j: int| !crossed_at(ops, outs, j),
        ops[outs.len() - 1].state matches ConnectState::Resolving(rf)
            && ops[outs.len() as int].state matches ConnectState::Resolving(rf2)
            && R::Future::poll_spec(rf, rf2, TaskPoll::Failed(e)),
{
    let n = outs.len() - 1;
    assert(connect_step(ops[n], ops[n + 1], outs[n]));
    assert(resolving_step(ops[n], ops[n + 1], outs[n]));
    law_resolving_history(ops, outs, n + 1);
    assert forall|j: int| !crossed_at(ops, outs, j) by {
        if crossed_at(ops, outs, j) {
            assert(ops[j + 1].state is Connecting);
        }
    }
}

/// Law: when a run that began `Resolving` reports a ready connection, it
/// crossed exactly once — resolution succeeded with the recorded address and
/// the establisher copy was invoked once, on exactly that address — and the
/// connection reported is the one the establishment handle yielded in the
/// final poll.
pub proof fn law_success_connection_from_establisher<C, R, Target>(
    ops: Seq<ConnectFuture<C, R, Target>>,
    outs: Seq<TaskPoll<C::Response, ConnectorError<R::Error, C::Error>>>,
    conn: C::Response,
) where C: ConnectService<NetAddr>, R: Resolve<Target>
    requires
        is_run(ops, outs),
        outs.len() >= 1,
        ops[0].state is Resolving,
        outs.last() == TaskPoll::<C::Response, ConnectorError<R::Error, C::Error>>::Ready(conn),
    ensures
        ops[ops.len() - 1].state is Connecting,
        exists|k: int| #[trigger] crossed_at(ops, outs, k),
        forall|k: int, j: int|
            #[trigger] crossed_at(ops, outs, k) && #[trigger] crossed_at(ops, outs, j) ==> k == j,
        ops[ops.len() - 1].state matches ConnectState::Connecting(cf2) && exists|cf: C::Future|
            #[trigger] C::Future::poll_spec(cf, cf2, TaskPoll::Ready(conn)),
        ops[ops.len() - 1].resolved@ matches Some(addr) && ops[ops.len() - 1].attempt@ matches Some(
            cf0,
        ) && C::connect_spec(ops[0].connector, ops[ops.len() - 1].connector, addr, cf0),
{
    terminal_run_shape(ops, outs);
    let cf2 = ops[ops.len() - 1].state->Connecting_0;
    let cf = choose|cf: C::Future|
        #[trigger] connect_poll_reported::<C, R::Error>(cf, cf2, outs.last());
    assert(C::Future::poll_spec(cf, cf2, TaskPoll::Ready(conn)));
}

/// Law: a failure tagged with the establisher's error comes only after the
/// run crossed, exactly once, and it was the establishment handle itself
/// that reported the error in the final poll.
pub proof fn law_connect_failure_after_crossing<C, R, Target>(
    ops: Seq<ConnectFuture<C, R, Target>>,
    outs: Seq<TaskPoll<C::Response, ConnectorError<R::Error, C::Error>>>,
    e: C::Error,
) where C: ConnectService<NetAddr>, R: Resolve<Target>
    requires
        is_run(ops, outs),
        outs.len() >= 1,
        ops[0].state is Resolving,
        outs.last() == TaskPoll::<C::Response, ConnectorError<R::Error, C::Error>>::Failed(
            ConnectorError::Connect(e),
        ),
    ensures
        ops[ops.len() - 1].state is Connecting,
        exists|k: int| #[trigger] crossed_at(ops, outs, k),
        forall|k: int, j: int|
            #[trigger] crossed_at(ops, outs, k) && #[trigger] crossed_at(ops, outs, j) ==> k == j,
        ops[ops.len() - 1].state matches ConnectState::Connecting(cf2) && exists|cf: C::Future|
            #[trigger] C::Future::poll_spec(cf, cf2, TaskPoll::Failed(e)),
        ops[ops.len() - 1].resolved@ matches Some(addr) && ops[ops.len() - 1].attempt@ matches Some(
            cf0,
        ) && C::connect_spec(ops[0].connector, ops[ops.len() - 1].connector, addr, cf0),
{
    terminal_run_shape(ops, outs);
    let cf2 = ops[ops.len() - 1].state->Connecting_0;
    let cf = choose|cf: C::Future|
        #[trigger] connect_poll_reported::<C, R::Error>(cf, cf2, outs.last());
    assert(C::Future::poll_spec(cf, cf2, TaskPoll::Failed(e)));
}

/// The shared shape of a run whose last outcome is `Ready` or tagged
/// `Connect`: the final state is `Connecting`, the crossing exists and is
/// unique, and the final poll of the establishment handle reported exactly
/// that outcome.
proof fn terminal_run_shape<C, R, Target>(
    ops: Seq<ConnectFuture<C, R, Target>>,
    outs: Seq<TaskPoll<C::Response, ConnectorError<R::Error, C::Error>>>,
) where C: ConnectService<NetAddr>, R: Resolve<Target>
    requires
        is_run(ops, outs),
        outs.len() >= 1,
        ops[0].state is Resolving,
        !(outs.last() is Pending),
        !(outs.last() matches TaskPoll::Failed(ConnectorError::Resolve(_))),
    ensures
        ops[ops.len() - 1].state is Connecting,
        exists|k: int| #[trigger] crossed_at(ops, outs, k),
        forall|k: int, j: int|
            #[trigger] crossed_at(ops, outs, k) && #[trigger] crossed_at(ops, outs, j) ==> k == j,
        ops[ops.len() - 1].state matches ConnectState::Connecting(cf2) && exists|cf: C::Future|
            #[trigger] connect_poll_reported::<C, R::Error>(cf, cf2, outs.last()),
        ops[ops.len() - 1].resolved@ matches Some(addr) && ops[ops.len() - 1].attempt@ matches Some(
            cf0,
        ) && C::connect_spec(ops[0].connector, ops[ops.len() - 1].connector, addr, cf0),
{
    let n = outs.len() - 1;
    assert(connect_step(ops[n], ops[n + 1], outs[n]));
    if ops[n].state is Resolving {
        assert(crossing_step(ops[n], ops[n + 1], outs[n]));
        assert(crossed_at(ops, outs, n));
        law_resolving_history(ops, outs, n);
    } else {
        assert(connecting_step(ops[n], ops[n + 1], outs[n]));
        law_crossing_exists(ops, outs, n);
        let k = choose|k: int| #[trigger] crossed_at(ops, outs, k);
        law_connecting_persists(ops, outs, k + 1, n + 1);
        law_resolving_history(ops, outs, k);
    }
    assert forall|k: int, j: int|
        #[trigger] crossed_at(ops, outs, k) && #[trigger] crossed_at(ops, outs, j) implies k
        == j by {
        law_crossing_unique(ops, outs, k, j);
    }
}

/// Law: one advancement that finds resolution ready makes establishment
/// progress within that same call — it is a crossing step, so the fresh
/// establishment handle was created and polled before the call returned. In
/// particular, an establishment handle that is ready at once completes the
/// whole operation in this single call.
pub proof fn law_same_call_progress<C, R, Target>(
    pre: ConnectFuture<C, R, Target>,
    post: ConnectFuture<C, R, Target>,
    r: TaskPoll<C::Response, ConnectorError<R::Error, C::Error>>,
) where C: ConnectService<NetAddr>, R: Resolve<Target>
    requires
        connect_step(pre, post, r),
        pre.state is Resolving,
        post.state is Connecting,
    ensures
        crossing_step(pre, post, r),
        post.attempt@ matches Some(cf0) && post.state matches ConnectState::Connecting(cf2)
            && connect_poll_reported::<C, R::Error>(cf0, cf2, r),
{
}

} // verus!
