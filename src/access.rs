//! Which peer may reach the device's local services.

use vstd::prelude::*;

verus! {

/// The peer was refused.
#[derive(Clone, Copy, Debug, PartialEq, Eq, Structural)]
pub struct Forbidden;

/// Admits only the host right after the gateway's address: the one address
/// the device hands out on its wired link. Addresses are IPv4 addresses as
/// big-endian integers.
pub fn check_ip(source: u32, gateway: u32) -> (r: Result<(), Forbidden>)
    ensures
        r is Ok <==> (gateway < u32::MAX && source == gateway + 1),
{
    if gateway < u32::MAX && source == gateway + 1 {
        Ok(())
    } else {
        Err(Forbidden)
    }
}

} // verus!
