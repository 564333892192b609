//! Destination socket path resolution.
//!
//! The destination is a filesystem path to a connectionless local socket,
//! resolved once per client, from an explicit path or from the value of a
//! well-known environment variable. The embedding application reads the
//! variable and hands its value here; the decision itself is verified.

use crate::Error;
use vstd::prelude::*;

verus! {

/// Name of the well-known environment variable that carries the destination
/// socket path.
pub fn socket_env_var_name() -> (r: &'static str)
    ensures
        r@ == "NOTIFY_SOCKET"@,
{
    "NOTIFY_SOCKET"
}

/// Decides the destination from the environment variable's value, if any. An
/// unset or empty variable means no supervisor is listening: a normal,
/// recoverable outcome, kept distinct from every transport failure.
pub fn resolve_from_env(value: Option<String>) -> (r: Result<String, Error>)
    ensures
        r is Ok <==> (value matches Some(p) && p@.len() > 0),
        r matches Ok(p) ==> (value matches Some(given) && given@ == p@),
        r matches Err(e) ==> e == Error::NoSocket,
{
    match value {
        Some(path) => {
            if path.as_str().is_empty() {
                Err(Error::NoSocket)
            } else {
                Ok(path)
            }
        },
        None => Err(Error::NoSocket),
    }
}

/// Accepts a caller-supplied destination path verbatim, with no existence
/// check: the destination is validated only by attempting to send.
pub fn resolve_from_path(path: String) -> (r: String)
    ensures
        r@ == path@,
{
    path
}

} // verus!
