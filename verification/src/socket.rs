//! The name of the local socket that the daemon listens on.

use vstd::prelude::*;

verus! {

/// The name of the socket: in the socket namespace where the platform has
/// one, and a file under `/tmp` where it has none.
pub open spec fn spec_socket_name(namespaced: bool) -> Seq<char> {
    if namespaced {
        "/var/run/salus.sock"@
    } else {
        "/tmp/salus.sock"@
    }
}

/// The name of the socket, given whether the platform has a socket
/// namespace.
pub fn socket_name(namespaced: bool) -> (name: String)
    ensures
        name@ == spec_socket_name(namespaced),
{
    if namespaced {
        "/var/run/salus.sock".to_owned()
    } else {
        "/tmp/salus.sock".to_owned()
    }
}

} // verus!
