//! UDP beacon: the PC broadcasts a fixed datagram on the local network so a
//! phone can find it again after its address changes.

use vstd::prelude::*;

verus! {

/// UDP port the phone listens on for the beacon.
pub const BEACON_PORT: u16 = 9999;

/// Seconds between two beacons of the PC server (shared crate).
pub const BEACON_INTERVAL_SECS: u64 = 2;

/// Seconds between two beacons of the desktop server.
pub const DESKTOP_BEACON_INTERVAL_SECS: u64 = 3;

/// The beacon's bytes, `AETHERLINK_8080`.
pub const BEACON_MSG: [u8; 15] = [65, 69, 84, 72, 69, 82, 76, 73, 78, 75, 95, 56, 48, 56, 48];

/// A received datagram is the beacon: exactly its bytes, nothing more.
pub fn is_beacon(datagram: &[u8]) -> (r: bool)
    ensures
        r == (datagram@ == BEACON_MSG@),
{
    let msg = BEACON_MSG;
    if datagram.len() != 15 {
        return false;
    }
    let mut i: usize = 0;
    while i < 15
        invariant
            i <= 15,
            datagram@.len() == 15,
            msg@ == BEACON_MSG@,
            forall|j: int| 0 <= j < i ==> datagram@[j] == msg@[j],
        decreases 15 - i,
    {
        if datagram[i] != msg[i] {
            return false;
        }
        i = i + 1;
    }
    assert(datagram@ =~= BEACON_MSG@);
    true
}

} // verus!
