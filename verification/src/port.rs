//! Port allocation: which TCP port the sidecar is told to bind.

use vstd::prelude::*;

verus! {

/// The port that the sidecar binds unless another process holds it.
pub const DEFAULT_PORT: u16 = 9700;

/// The port that follows from an attempt to obtain an ephemeral port from the
/// operating system: the assigned port, or the default where the attempt
/// failed.
pub open spec fn free_port_or_default(os_probe: Option<u16>) -> u16 {
    match os_probe {
        Some(port) => port,
        None => DEFAULT_PORT,
    }
}

/// The allocation policy: the default port while it is unbound, otherwise
/// whatever the operating system assigned, otherwise the default after all.
pub open spec fn picked_port(default_in_use: bool, os_probe: Option<u16>) -> u16 {
    if default_in_use {
        free_port_or_default(os_probe)
    } else {
        DEFAULT_PORT
    }
}

/// Turns the outcome of binding port 0 on loopback into a port number.
///
/// `os_probe` is the port that the operating system assigned, or `None`
/// where the bind or the read-back of the address failed. A failed probe
/// yields the default port: allocation never raises an error.
pub fn find_free_port(os_probe: Option<u16>) -> (port: u16)
    ensures
        port == free_port_or_default(os_probe),
{
    match os_probe {
        Some(port) => port,
        None => DEFAULT_PORT,
    }
}

/// Picks the port for the sidecar.
///
/// `default_in_use` says whether binding the default port on loopback
/// failed. `os_probe` is consulted only in that case, so a caller may skip
/// the probe and pass `None` while the default port is free.
pub fn pick_port(default_in_use: bool, os_probe: Option<u16>) -> (port: u16)
    ensures
        port == picked_port(default_in_use, os_probe),
{
    if !default_in_use {
        return DEFAULT_PORT;
    }
    find_free_port(os_probe)
}

/// While another process holds the default port and the operating system
/// assigns a port to a bind of port 0, the allocator hands out exactly that
/// port: the one that was unbound when it was probed. In every other case it
/// hands out the default port.
pub proof fn lemma_picked_port(default_in_use: bool, os_probe: Option<u16>)
    ensures
        default_in_use && os_probe is Some ==> picked_port(default_in_use, os_probe)
            == os_probe->0,
        !default_in_use || os_probe is None ==> picked_port(default_in_use, os_probe)
            == DEFAULT_PORT,
{
}

} // verus!
