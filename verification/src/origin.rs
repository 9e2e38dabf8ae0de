//! The trust boundary: only the local machine may talk to the service.
//!
//! A connection is kept only when its peer address is the IPv4 or IPv6
//! loopback address; every other peer is dropped without a response.

use vstd::prelude::*;

verus! {

/// A peer's socket address, reduced to what the guard reads: the raw
/// octets of an IPv4 address or the raw segments of an IPv6 address.
pub enum PeerAddr {
    V4 { octets: [u8; 4] },
    V6 { segments: [u16; 8] },
}

/// Whether `addr` is the loopback address: `127.0.0.1` or `::1`.
pub open spec fn is_loopback(addr: PeerAddr) -> bool {
    match addr {
        PeerAddr::V4 { octets } => octets@ == seq![127u8, 0, 0, 1],
        PeerAddr::V6 { segments } => segments@ == seq![0u16, 0, 0, 0, 0, 0, 0, 1],
    }
}

/// Decides whether a connection from `addr` may be served at all.
pub fn check_origin(addr: &PeerAddr) -> (r: bool)
    ensures
        r == is_loopback(*addr),
{
    match addr {
        PeerAddr::V4 { octets } => {
            let r = octets[0] == 127 && octets[1] == 0 && octets[2] == 0 && octets[3] == 1;
            proof {
                if r {
                    assert(octets@ =~= seq![127u8, 0, 0, 1]);
                } else {
                    assert(!(octets@ =~= seq![127u8, 0, 0, 1]));
                }
            }
            r
        },
        PeerAddr::V6 { segments } => {
            let r = segments[0] == 0 && segments[1] == 0 && segments[2] == 0 && segments[3] == 0
                && segments[4] == 0 && segments[5] == 0 && segments[6] == 0 && segments[7] == 1;
            proof {
                if r {
                    assert(segments@ =~= seq![0u16, 0, 0, 0, 0, 0, 0, 1]);
                } else {
                    assert(!(segments@ =~= seq![0u16, 0, 0, 0, 0, 0, 0, 1]));
                }
            }
            r
        },
    }
}

} // verus!
