//! Client for a one-way, fire-and-forget notification protocol: a supervised
//! daemon reports lifecycle state (startup completion, free-text status,
//! watchdog pings) to its process supervisor over a connectionless local
//! socket, one datagram per message.
//!
//! This crate holds the verified core: message construction and validation,
//! the wire encoding of each message as a single datagram, and resolution of
//! the destination socket path. The socket itself, and the reading of the
//! process environment, live with the embedding application, which hands this
//! library plain values and sends the bytes it returns.

use vstd::prelude::*;

mod message;
mod resolve;

pub use message::lemma_datagram_deterministic;
pub use message::lemma_utf8_line_feed;
pub use message::lemma_wf_datagram_single_line;
pub use message::spec_datagram;
pub use message::spec_ready_datagram;
pub use message::spec_status_prefix;
pub use message::spec_watchdog_datagram;
pub use message::wf_view;
pub use message::Message;
pub use message::MessageView;
pub use resolve::resolve_from_env;
pub use resolve::resolve_from_path;
pub use resolve::socket_env_var_name;

verus! {

/// How a client operation can fail before any transport write is attempted.
/// Transport failures themselves are surfaced by the embedding application,
/// which owns the socket.
#[derive(Debug, Clone, Copy, PartialEq, Eq, Structural)]
pub enum Error {
    /// Environment-based resolution found no destination: the variable is
    /// unset or empty. Expected and recoverable when the process is not
    /// running under a supervisor.
    NoSocket,
    /// A status text contains a line-feed byte, which would corrupt the
    /// line-oriented framing the receiver expects. Rejected at construction,
    /// before any I/O.
    InvalidPayload,
}

} // verus!
