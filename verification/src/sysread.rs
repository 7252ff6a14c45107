//! Trusted boundary to the `sysinfo` crate: the OS gauges and counters the
//! sampler reads.
//!
//! The handles themselves are opaque here. What a handle holds after a
//! refresh depends on the machine, so the refresh operations promise
//! nothing; the getters are given names for the values a handle holds, and
//! everything computed from those values is verified.

use vstd::multiset::Multiset;
use vstd::prelude::*;

verus! {

#[verifier::external_type_specification]
#[verifier::external_body]
pub struct ExSystem(sysinfo::System);

#[verifier::external_type_specification]
#[verifier::external_body]
pub struct ExNetworks(sysinfo::Networks);

#[verifier::external_type_specification]
#[verifier::external_body]
pub struct ExNetworkData(sysinfo::NetworkData);

/// The used-RAM gauge held by a `System` handle, in bytes.
pub uninterp spec fn used_mem_of(sys: sysinfo::System) -> u64;

/// The total-RAM gauge held by a `System` handle, in bytes.
pub uninterp spec fn total_mem_of(sys: sysinfo::System) -> u64;

/// The per-interface `(received, transmitted)` byte deltas held by a
/// `Networks` handle, one pair per interface. The underlying map is walked
/// in arbitrary order, so only the multiset of pairs is meaningful.
pub uninterp spec fn net_io_of(nets: sysinfo::Networks) -> Multiset<(u64, u64)>;

/// Relies on sysinfo's `System::refresh_memory`: re-reads the host's RAM
/// gauges into the handle. What they read depends on the machine, so
/// nothing is promised about the new state.
#[verifier::external_body]
pub(crate) fn sys_refresh_memory(sys: &mut sysinfo::System) {
    sys.refresh_memory();
}

/// Relies on sysinfo's `System::used_memory`: returns the amount of used
/// RAM in bytes as last refreshed into the handle.
#[verifier::external_body]
pub(crate) fn sys_used_memory(sys: &sysinfo::System) -> (r: u64)
    ensures
        r == used_mem_of(*sys),
{
    sys.used_memory()
}

/// Relies on sysinfo's `System::total_memory`: returns the RAM size in
/// bytes as last refreshed into the handle.
#[verifier::external_body]
pub(crate) fn sys_total_memory(sys: &sysinfo::System) -> (r: u64)
    ensures
        r == total_mem_of(*sys),
{
    sys.total_memory()
}

/// Relies on sysinfo's `Networks::refresh`: re-reads each interface's byte
/// counters into the handle; interfaces that disappeared are kept listed.
/// What is read depends on the machine, so nothing is promised about the
/// new state.
#[verifier::external_body]
pub(crate) fn nets_refresh(nets: &mut sysinfo::Networks) {
    nets.refresh(false);
}

/// Relies on sysinfo's `NetworkData::received` and `transmitted`: for each
/// interface, the bytes received and transmitted since the previous
/// refresh of the handle. The interface map iterates in arbitrary order,
/// so only the multiset of pairs is stated.
#[verifier::external_body]
pub(crate) fn nets_io_deltas(nets: &sysinfo::Networks) -> (r: Vec<(u64, u64)>)
    ensures
        r@.to_multiset() == net_io_of(*nets),
{
    nets.iter().map(|(_, data)| (data.received(), data.transmitted())).collect()
}

} // verus!
