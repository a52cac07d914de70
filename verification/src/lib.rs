//! Two-phase connection establishment.
//!
//! A connection to a logical target (a host name, a service name) is made in
//! two asynchronous phases: a resolver turns the target into a concrete
//! network address, then an establisher turns that address into a live
//! connection. This crate is the glue between those two capabilities: a
//! [`connector::Connector`] composes one resolver and one establisher and
//! offers the establisher's capability directly on the logical target type.
//!
//! The in-flight work of one connect call is a [`connector::ConnectFuture`],
//! a single-use state machine that is either still resolving or already
//! connecting. Advancing it polls whichever handle is live; the step a single
//! advancement may take is written down exactly in
//! [`connector::connect_step`], and laws about whole runs of advancements
//! stand in [`run`].

pub mod addr;
pub mod connector;
pub mod run;
pub mod script;
pub mod service;
pub mod task;
