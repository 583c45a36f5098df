//! The address rule of the supervisor. The host shell probes for the local
//! outbound address (a transient socket, opened and discarded); the rule here
//! decides what the server's reachable IP is: the probed address when the
//! probe succeeded, and the loopback address otherwise. It never fails.

use vstd::prelude::*;

verus! {

/// The IP the supervisor records, given the outcome of the shell's probe:
/// the probed address, or loopback when the probe yielded nothing.
pub open spec fn local_ip_view(candidate: Option<String>) -> Seq<char> {
    match candidate {
        Some(ip) => ip@,
        None => "127.0.0.1"@,
    }
}

/// Picks the server's reachable IP from the probe's outcome. Total: every
/// outcome, including a failed probe, yields an address.
pub fn choose_local_ip(candidate: Option<String>) -> (r: String)
    ensures
        r@ == local_ip_view(candidate),
{
    match candidate {
        Some(ip) => ip,
        None => String::from_str("127.0.0.1"),
    }
}

} // verus!
