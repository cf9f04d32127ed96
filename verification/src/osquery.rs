//! The one concrete metrics provider: readings taken from the operating
//! system through the `sysinfo` crate.
//!
//! Every reading is machine state, so nothing can be promised of the values;
//! each call is wrapped as a trusted item that hands plain values to the
//! verified collection logic, which is proved for every value they could
//! take.

use crate::collector::{build_snapshot, collect_spec, DiskReading, NetReading, OsReadings};
use crate::snapshot::Snapshot;
use vstd::prelude::*;

verus! {

#[verifier::external_type_specification]
#[verifier::external_body]
pub struct ExSystem(sysinfo::System);

/// Relies on `sysinfo::System::new_all`: a system handle with every
/// subsystem refreshed once.
#[verifier::external_body]
fn system_new_all() -> sysinfo::System {
    sysinfo::System::new_all()
}

/// Relies on `sysinfo::System::refresh_all`: re-samples the handle so later
/// reads reflect the current instant.
#[verifier::external_body]
fn refresh_all(sys: &mut sysinfo::System) {
    sys.refresh_all();
}

/// Relies on `sysinfo::System::host_name`: the host name, or `None` where
/// the system cannot supply it.
#[verifier::external_body]
fn read_host_name() -> Option<String> {
    sysinfo::System::host_name()
}

/// Relies on `sysinfo::System::name`: the system name, or `None` where the
/// system cannot supply it.
#[verifier::external_body]
fn read_system_name() -> Option<String> {
    sysinfo::System::name()
}

/// Relies on `sysinfo::System::os_version`: the system version, or `None`
/// where the system cannot supply it.
#[verifier::external_body]
fn read_system_version() -> Option<String> {
    sysinfo::System::os_version()
}

/// Relies on `sysinfo::System::global_cpu_usage`: the aggregate CPU
/// percentage across all cores, rendered as its decimal text.
#[verifier::external_body]
fn read_cpu_usage_text(sys: &sysinfo::System) -> (r: String)
    ensures
        r@.len() > 0,
{
    format!("{}", sys.global_cpu_usage())
}

/// Relies on `sysinfo::System::used_memory`: used memory in bytes.
#[verifier::external_body]
fn read_used_memory(sys: &sysinfo::System) -> u64 {
    sys.used_memory()
}

/// Relies on `sysinfo::System::total_memory`: total memory in bytes.
#[verifier::external_body]
fn read_total_memory(sys: &sysinfo::System) -> u64 {
    sys.total_memory()
}

/// Relies on `sysinfo::Disks::new_with_refreshed_list` and
/// `sysinfo::Disk::{total_space, available_space}`: the enumerated disks'
/// capacity counters, in the enumeration order the system reports.
#[verifier::external_body]
fn read_disks() -> Vec<DiskReading> {
    let disks = sysinfo::Disks::new_with_refreshed_list();
    let mut out: Vec<DiskReading> = Vec::new();
    for d in disks.list() {
        out.push(DiskReading { total_bytes: d.total_space(), available_bytes: d.available_space() });
    }
    out
}

/// Relies on `sysinfo::Networks::new_with_refreshed_list` and
/// `sysinfo::NetworkData::{total_received, total_transmitted}`: each
/// enumerated interface's cumulative traffic counters, in no fixed order.
#[verifier::external_body]
fn read_networks() -> Vec<NetReading> {
    let networks = sysinfo::Networks::new_with_refreshed_list();
    let mut out: Vec<NetReading> = Vec::new();
    for (_, data) in networks.list() {
        out.push(NetReading { received: data.total_received(), transmitted: data.total_transmitted() });
    }
    out
}

/// Queries the operating system for host identity and resource counters.
/// The one stateful piece is the long-lived system handle, owned here and
/// re-sampled before every read.
pub struct MetricsCollector {
    sys: sysinfo::System,
}

impl MetricsCollector {
    /// Opens the system handle, with a first sampling taken.
    pub fn new() -> MetricsCollector {
        MetricsCollector { sys: system_new_all() }
    }

    /// Takes one fresh sampling: re-reads the identity fields and, after a
    /// refresh of the handle, every resource counter.
    pub fn sample(&mut self) -> (r: OsReadings)
        ensures
            r.cpu_usage@.len() > 0,
    {
        refresh_all(&mut self.sys);
        OsReadings {
            host_name: read_host_name(),
            system_name: read_system_name(),
            system_version: read_system_version(),
            cpu_usage: read_cpu_usage_text(&self.sys),
            memory_used: read_used_memory(&self.sys),
            memory_total: read_total_memory(&self.sys),
            disks: read_disks(),
            networks: read_networks(),
        }
    }

    /// One full collection against the live system: whatever sampling the
    /// system hands back, the snapshot is exactly the verified collection
    /// function of that sampling, the previous snapshot and the given
    /// collection timestamp.
    pub fn collect(&mut self, prev: &Snapshot, timestamp: String) -> (s: Snapshot)
        ensures
            exists|r: <OsReadings as View>::V| s@ == collect_spec(prev@, r, timestamp@),
    {
        let readings = self.sample();
        let ghost tsv = timestamp@;
        let s = build_snapshot(prev, &readings, timestamp);
        proof {
            assert(s@ == collect_spec(prev@, readings@, tsv));
        }
        s
    }
}

} // verus!
