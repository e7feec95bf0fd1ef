//! Round-robin choice of a proxy for each cycle.
use vstd::prelude::*;

verus! {

/// Index of the proxy used by cycle `cycle` among `count` proxies, or none
/// when no proxy is configured.
pub open spec fn spec_select_proxy(cycle: u32, count: nat) -> Option<nat> {
    if count == 0 {
        None
    } else {
        Some((cycle as nat) % count)
    }
}

/// Picks the proxy for a cycle: proxies are used in turn, one per cycle.
pub fn select_proxy(cycle: u32, count: usize) -> (r: Option<usize>)
    ensures
        r matches Some(i) ==> i < count,
        match r {
            Some(i) => spec_select_proxy(cycle, count as nat) == Some(i as nat),
            None => spec_select_proxy(cycle, count as nat) is None,
        },
{
    if count == 0 {
        None
    } else {
        Some(((cycle as u64) % (count as u64)) as usize)
    }
}

/// Successive cycles walk the proxy list in order and wrap around to the
/// first proxy after the last.
pub proof fn lemma_proxies_in_turn(cycle: u32, count: nat)
    requires
        count > 0,
        cycle < u32::MAX,
    ensures
        spec_select_proxy((cycle + 1) as u32, count) == Some(
            if (cycle as nat) % count + 1 == count { 0 } else { (cycle as nat) % count + 1 },
        ),
{
    assert(((cycle + 1) as nat) % count == if (cycle as nat) % count + 1 == count {
        0nat
    } else {
        (cycle as nat) % count + 1
    }) by (nonlinear_arith)
        requires
            count > 0,
    ;
}

} // verus!
