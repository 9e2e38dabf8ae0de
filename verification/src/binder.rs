//! Choosing the listening port.
//!
//! The service scans the ports from [`PORT_MIN`] up to [`PORT_MAX`] in
//! order, binding the first one that is free. The bind calls themselves
//! are performed by the surrounding process; [`bind_step`] is the
//! decision it consults after each attempt, and the scan as a whole is
//! modeled by [`scan_from`], of which the first-free-port property is
//! proved.

use vstd::prelude::*;

verus! {

/// The first port the scan tries (ports below 1025 are reserved).
pub const PORT_MIN: u16 = 1025;

/// The last port the scan tries.
pub const PORT_MAX: u16 = 65534;

/// What to do after one bind attempt.
#[derive(PartialEq, Eq, Structural)]
pub enum BindDecision {
    /// The attempt succeeded: listen on this port.
    Listen { port: u16 },
    /// The attempt failed: try this port next.
    Retry { next: u16 },
    /// The attempt failed on the last port of the range: startup fails.
    GiveUp,
}

/// Decides what follows one attempt to bind `port`, which succeeded iff
/// `bound`: listen on success, step to the next port while any remain,
/// and give up after the last.
pub fn bind_step(port: u16, bound: bool) -> (d: BindDecision)
    requires
        PORT_MIN <= port <= PORT_MAX,
    ensures
        bound ==> d == (BindDecision::Listen { port }),
        !bound && port < PORT_MAX ==> d == (BindDecision::Retry { next: (port + 1) as u16 }),
        !bound && port == PORT_MAX ==> d == BindDecision::GiveUp,
{
    if bound {
        BindDecision::Listen { port }
    } else if port < PORT_MAX {
        BindDecision::Retry { next: port + 1 }
    } else {
        BindDecision::GiveUp
    }
}

/// The scan, modeled over the availability of each port: `avail[i]`
/// says whether the `i`-th port of the range is free. The result is the
/// index the scan stops at, or `None` where every port from `i` on is
/// taken.
pub open spec fn scan_from(avail: Seq<bool>, i: int) -> Option<int>
    decreases avail.len() - i when 0 <= i <= avail.len()
{
    if i >= avail.len() {
        None
    } else if avail[i] {
        Some(i)
    } else {
        scan_from(avail, i + 1)
    }
}

/// Ports already taken are skipped: a scan from `i` stops at the first
/// free index at or after `i`, and fails only where no port from `i` on
/// is free.
proof fn lemma_scan_from(avail: Seq<bool>, i: int)
    requires
        0 <= i <= avail.len(),
    ensures
        scan_from(avail, i) matches Some(k) ==> i <= k < avail.len() && avail[k]
            && (forall|j: int| i <= j < k ==> !avail[j]),
        scan_from(avail, i) is None ==> forall|j: int| i <= j < avail.len() ==> !avail[j],
    decreases avail.len() - i,
{
    if i < avail.len() && !avail[i] {
        lemma_scan_from(avail, i + 1);
    }
}

/// The binder skips every taken port and lands on the first free one;
/// where every port of the range is taken, startup fails
/// deterministically.
pub proof fn lemma_binder_first_free(avail: Seq<bool>)
    ensures
        scan_from(avail, 0) matches Some(k) ==> 0 <= k < avail.len() && avail[k]
            && (forall|j: int| 0 <= j < k ==> !avail[j]),
        (exists|j: int| 0 <= j < avail.len() && avail[j]) ==> scan_from(avail, 0) is Some,
        (forall|j: int| 0 <= j < avail.len() ==> !avail[j]) ==> scan_from(avail, 0) is None,
{
    lemma_scan_from(avail, 0);
    if exists|j: int| 0 <= j < avail.len() && avail[j] {
        if scan_from(avail, 0) is None {
            let j = choose|j: int| 0 <= j < avail.len() && avail[j];
            assert(!avail[j]);
        }
    }
}

} // verus!
