//! A request-serialised command-execution service, kept free of I/O.
//!
//! The crate holds the decisions of a small diagnostic harness: how a shell
//! command line is handed to the platform shell, how every execution gets a
//! sequence index under exclusive access to one counter, how the captured
//! output becomes a record and a response body, which requests trigger an
//! execution, and what the self-polling loop does next. Spawning processes,
//! taking locks, sleeping and talking to the network stay with the caller,
//! who passes them in as closures or reports them as events.

pub mod text;
pub mod record;
pub mod shell;
pub mod executor;
pub mod json;
pub mod endpoint;
pub mod config;
pub mod poller;
pub mod startup;
