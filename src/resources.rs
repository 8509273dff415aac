//! Capacities of the fixed resource pool shared by the BLE host and
//! controller. They are fixed at build time; the pool is claimed once and
//! never grows.

use vstd::prelude::*;

verus! {

/// This device serves one connection at a time.
pub const MAX_CONNECTIONS: usize = 1;

/// The same data goes out in every advertising window, so one advertising
/// set is enough.
pub const MAX_ADVERTISING_SETS: usize = 1;

/// L2CAP channels needed on a connection: signalling and the attribute
/// protocol.
pub const MAX_L2CAP_CHANNELS: usize = 2;

/// Largest packet carried on an L2CAP channel.
pub const L2CAP_MTU: usize = 251;

/// What a pool needs to carry one connection: a connection slot, an
/// advertising set to be found through, and the signalling and attribute
/// protocol channels.
pub open spec fn capacities_valid(connections: usize, advertising_sets: usize, l2cap_channels: usize) -> bool {
    &&& connections >= 1
    &&& advertising_sets >= 1
    &&& l2cap_channels >= 2
}

/// The pool this device is built with can carry its connection, and holds a
/// slot for one connection only.
pub proof fn lemma_pool_capacities()
    ensures
        capacities_valid(MAX_CONNECTIONS, MAX_ADVERTISING_SETS, MAX_L2CAP_CHANNELS),
        MAX_CONNECTIONS == 1,
{
}

} // verus!
