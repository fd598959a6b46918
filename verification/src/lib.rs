//! A gateway between SIP2 library terminals and an HTTP/JSON backend.
//!
//! The crate holds the decisions of the gateway: which connections are taken
//! in ([`server`]), how a session moves from one exchange to the next and
//! what it sends to the backend ([`session`], [`form`], [`codec`], [`key`]),
//! and how the process is set up ([`options`], [`conf`], [`logging`]).
//! Sockets, threads and the HTTP transport are driven by the caller, which
//! performs each [`session::Action`] and reports its outcome as a
//! [`session::Event`].

pub mod codec;
pub mod conf;
pub mod form;
pub mod key;
pub mod logging;
pub mod options;
pub mod server;
pub mod session;
pub mod text;
