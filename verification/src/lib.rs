//! Policy core of a direct-origin HTTP client, and the HTTP body conveniences that
//! go with it.
//!
//! Everything here is computed from plain values: which URIs are routed where, in
//! which order addresses are tried, what follows from each answer of a resolver, a
//! dialer, a TLS session or a pool, how a request is put on the wire, and when it is
//! tried again. Sockets, timers, tasks and the HTTP protocol engine are left to
//! whoever drives these decisions.

pub mod address;
pub mod body;
pub mod client;
pub mod collect;
pub mod connect;
pub mod connector;
pub mod error;
pub mod establish;
pub mod events;
pub mod exchange;
pub mod header;
pub mod http2;
pub mod idle;
pub mod info;
pub mod normalize;
pub mod options;
pub mod race;
pub mod reader;
pub mod replay;
pub mod session;
pub mod text;
pub mod time;
pub mod tls;
pub mod uri;
