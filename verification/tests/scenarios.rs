//! Scenario tests driving connect operations over the scripted capabilities.

use resolve_connect::addr::NetAddr;
use resolve_connect::connector::{Connector, ConnectorError};
use resolve_connect::script::{ScriptEstablisher, ScriptResolver};
use resolve_connect::service::ConnectService;
use resolve_connect::task::{PollTask, TaskPoll};

#[derive(Clone, Copy, PartialEq, Eq, Debug)]
enum LookupFault {
    NameNotFound,
}

#[derive(Clone, Copy, PartialEq, Eq, Debug)]
enum DialFault {
    Refused,
}

type Resolver = ScriptResolver<&'static str, LookupFault>;
type Establisher = ScriptEstablisher<u32, DialFault>;

fn resolver(delays: u64, outcome: Result<NetAddr, LookupFault>) -> Resolver {
    ScriptResolver { delays, outcome, calls: 0, last: None }
}

fn establisher(delays: u64, outcome: Result<u32, DialFault>) -> Establisher {
    ScriptEstablisher { delays, outcome, calls: 0, last: None }
}

/// The concrete `"svc-a"` scenario: the resolver maps `"svc-a"` to
/// `10.0.0.5:443` after one "not ready" poll, the establisher yields the
/// stub connection after one "not ready" poll. The second advancement call
/// crosses into connecting and polls the fresh attempt within that same
/// call (finding it pending); the third reports the stub connection.
#[test]
fn svc_a_resolves_then_connects() {
    let addr = NetAddr::from_octets(10, 0, 0, 5, 443);
    let stub: u32 = 7;
    let mut connector = Connector::new(establisher(1, Ok(stub)), resolver(1, Ok(addr)));
    let mut op = connector.connect("svc-a");

    assert_eq!(op.poll(), TaskPoll::Pending);
    // establishment has not begun
    assert_eq!(op.connector.calls, 0);
    assert_eq!(op.connector.last, None);

    assert_eq!(op.poll(), TaskPoll::Pending);
    // the crossing happened within that call: one attempt, on the address
    assert_eq!(op.connector.calls, 1);
    assert_eq!(op.connector.last, Some(addr));

    assert_eq!(op.poll(), TaskPoll::Ready(stub));
    // still exactly one resolution and one attempt
    assert_eq!(connector.resolver.calls, 1);
    assert_eq!(connector.resolver.last, Some("svc-a"));
    assert_eq!(op.connector.calls, 1);
}

/// Both handles immediately ready: the whole resolve-then-connect sequence
/// completes within one single advancement call.
#[test]
fn single_advancement_completes_when_both_ready() {
    let addr = NetAddr::from_octets(192, 168, 0, 1, 80);
    let mut connector = Connector::new(establisher(0, Ok(11)), resolver(0, Ok(addr)));
    let mut op = connector.connect("svc-b");

    assert_eq!(op.poll(), TaskPoll::Ready(11));
    assert_eq!(op.connector.calls, 1);
    assert_eq!(op.connector.last, Some(addr));
    assert_eq!(connector.resolver.calls, 1);
}

/// The resolver becomes ready on the second advancement and the establisher
/// is ready at once: the second advancement crosses and completes, with no
/// extra suspension step introduced by the transition.
#[test]
fn crossing_call_also_advances_the_attempt() {
    let addr = NetAddr::from_octets(10, 1, 2, 3, 8080);
    let mut connector = Connector::new(establisher(0, Ok(5)), resolver(1, Ok(addr)));
    let mut op = connector.connect("svc-c");

    assert_eq!(op.poll(), TaskPoll::Pending);
    assert_eq!(op.poll(), TaskPoll::Ready(5));
    assert_eq!(op.connector.calls, 1);
    assert_eq!(op.connector.last, Some(addr));
}

/// The `"bad-host"` scenario: the resolver always fails with `NameNotFound`.
/// The failure is tagged as a resolution error carrying that very value, and
/// the establisher is never invoked.
#[test]
fn bad_host_fails_resolution_and_never_connects() {
    let mut connector = Connector::new(
        establisher(0, Ok(9)),
        resolver(0, Err(LookupFault::NameNotFound)),
    );
    let mut op = connector.connect("bad-host");

    assert_eq!(
        op.poll(),
        TaskPoll::Failed(ConnectorError::Resolve(LookupFault::NameNotFound))
    );
    assert_eq!(op.connector.calls, 0);
    assert_eq!(op.connector.last, None);
    assert_eq!(connector.resolver.last, Some("bad-host"));
}

/// A slow resolution failure: pending twice, then the tagged resolver error;
/// the establisher still untouched.
#[test]
fn slow_resolution_failure_stays_tagged_resolve() {
    let mut connector = Connector::new(
        establisher(0, Ok(9)),
        resolver(2, Err(LookupFault::NameNotFound)),
    );
    let mut op = connector.connect("svc-d");

    assert_eq!(op.poll(), TaskPoll::Pending);
    assert_eq!(op.poll(), TaskPoll::Pending);
    assert_eq!(
        op.poll(),
        TaskPoll::Failed(ConnectorError::Resolve(LookupFault::NameNotFound))
    );
    assert_eq!(op.connector.calls, 0);
}

/// Resolution succeeds but establishment fails: the failure is tagged as a
/// connection error carrying the establisher's value, and exactly one
/// attempt was made, on the resolved address.
#[test]
fn establishment_failure_is_tagged_connect() {
    let addr = NetAddr::from_octets(10, 0, 0, 5, 443);
    let mut connector = Connector::new(
        establisher(1, Err(DialFault::Refused)),
        resolver(0, Ok(addr)),
    );
    let mut op = connector.connect("svc-e");

    assert_eq!(op.poll(), TaskPoll::Pending);
    assert_eq!(
        op.poll(),
        TaskPoll::Failed(ConnectorError::Connect(DialFault::Refused))
    );
    assert_eq!(op.connector.calls, 1);
    assert_eq!(op.connector.last, Some(addr));
    assert_eq!(connector.resolver.calls, 1);
}

/// A connector is reusable: each connect call starts one more lookup on the
/// shared resolver and hands the new operation its own independent copy of
/// the establisher.
#[test]
fn connector_reuse_keeps_operations_independent() {
    let addr = NetAddr::from_octets(10, 0, 0, 5, 443);
    let mut connector = Connector::new(establisher(0, Ok(1)), resolver(0, Ok(addr)));

    let mut first = connector.connect("svc-a");
    assert_eq!(first.poll(), TaskPoll::Ready(1));
    assert_eq!(first.connector.calls, 1);

    let mut second = connector.connect("svc-a");
    // the second operation's copy is independent: its counter starts where
    // the connector's own establisher stands, untouched by the first
    assert_eq!(second.connector.calls, 0);
    assert_eq!(second.poll(), TaskPoll::Ready(1));
    assert_eq!(second.connector.calls, 1);
    assert_eq!(connector.resolver.calls, 2);
}

/// The dotted-octet constructor builds exactly the big-endian host number.
#[test]
fn net_addr_from_octets_exact() {
    let addr = NetAddr::from_octets(10, 0, 0, 5, 443);
    assert_eq!(addr.host, 0x0A00_0005);
    assert_eq!(addr.port, 443);
    let all = NetAddr::from_octets(255, 255, 255, 255, 65535);
    assert_eq!(all.host, 0xFFFF_FFFF);
    assert_eq!(all.port, 65535);
}

/// The lookup counter saturates at the top of `u64` instead of wrapping.
#[test]
fn lookup_counter_saturates() {
    let addr = NetAddr::from_octets(10, 0, 0, 5, 443);
    let mut connector = Connector::new(
        establisher(0, Ok(2)),
        ScriptResolver::<&str, LookupFault> { delays: 0, outcome: Ok(addr), calls: u64::MAX, last: None },
    );
    let _op = connector.connect("svc-f");
    assert_eq!(connector.resolver.calls, u64::MAX);
}
