//! Turning raw operating-system readings into a snapshot.
//!
//! The collection step never fails as a whole: each field degrades on its own.
//! A missing identity text becomes the empty string; an empty disk list keeps
//! the previous snapshot's disk fields (carry-forward); an empty interface
//! list yields zero network sums.

use crate::snapshot::{initial_view, SnapView, Snapshot};
use vstd::prelude::*;

verus! {

/// Capacity counters of one disk or volume, in bytes.
#[derive(Clone, Copy)]
pub struct DiskReading {
    pub total_bytes: u64,
    pub available_bytes: u64,
}

/// Cumulative traffic counters of one network interface, in bytes.
#[derive(Clone, Copy)]
pub struct NetReading {
    pub received: u64,
    pub transmitted: u64,
}

/// Everything one sampling of the operating system yields. Identity texts are
/// `None` where the system could not supply them.
pub struct OsReadings {
    pub host_name: Option<String>,
    pub system_name: Option<String>,
    pub system_version: Option<String>,
    pub cpu_usage: String,
    pub memory_used: u64,
    pub memory_total: u64,
    pub disks: Vec<DiskReading>,
    pub networks: Vec<NetReading>,
}

/// The mathematical value of an [`OsReadings`].
pub ghost struct ReadingsView {
    pub host_name: Option<Seq<char>>,
    pub system_name: Option<Seq<char>>,
    pub system_version: Option<Seq<char>>,
    pub cpu_usage: Seq<char>,
    pub memory_used: int,
    pub memory_total: int,
    pub disks: Seq<DiskReading>,
    pub networks: Seq<NetReading>,
}

impl View for OsReadings {
    type V = ReadingsView;

    open spec fn view(&self) -> ReadingsView {
        ReadingsView {
            host_name: match self.host_name {
                Some(t) => Some(t@),
                None => None,
            },
            system_name: match self.system_name {
                Some(t) => Some(t@),
                None => None,
            },
            system_version: match self.system_version {
                Some(t) => Some(t@),
                None => None,
            },
            cpu_usage: self.cpu_usage@,
            memory_used: self.memory_used as int,
            memory_total: self.memory_total as int,
            disks: self.disks@,
            networks: self.networks@,
        }
    }
}

/// An identity text as it enters the snapshot: the empty string when the
/// system could not supply it.
pub open spec fn opt_text(o: Option<Seq<char>>) -> Seq<char> {
    match o {
        Some(t) => t,
        None => Seq::<char>::empty(),
    }
}

/// The arithmetic sum of the received-bytes counters of all interfaces.
pub open spec fn sum_received(nets: Seq<NetReading>) -> int
    decreases nets.len(),
{
    if nets.len() == 0 {
        0
    } else {
        sum_received(nets.drop_last()) + nets.last().received
    }
}

/// The arithmetic sum of the transmitted-bytes counters of all interfaces.
pub open spec fn sum_transmitted(nets: Seq<NetReading>) -> int
    decreases nets.len(),
{
    if nets.len() == 0 {
        0
    } else {
        sum_transmitted(nets.drop_last()) + nets.last().transmitted
    }
}

/// A sum as a stored counter: saturated at the largest storable value.
pub open spec fn to_counter(n: int) -> int {
    if n > u64::MAX {
        u64::MAX as int
    } else {
        n
    }
}

/// The used capacity of a disk: total minus available, and zero on a reading
/// where the available capacity exceeds the total.
pub open spec fn disk_used_of(d: DiskReading) -> int {
    if d.available_bytes <= d.total_bytes {
        d.total_bytes - d.available_bytes
    } else {
        0
    }
}

/// The snapshot one tick produces from the previous snapshot, one sampling of
/// the operating system, and the collection timestamp.
pub open spec fn collect_spec(prev: SnapView, r: ReadingsView, ts: Seq<char>) -> SnapView {
    SnapView {
        host_name: opt_text(r.host_name),
        system_name: opt_text(r.system_name),
        system_version: opt_text(r.system_version),
        cpu_usage: r.cpu_usage,
        memory_used: r.memory_used,
        memory_total: r.memory_total,
        disk_used: if r.disks.len() == 0 {
            prev.disk_used
        } else {
            disk_used_of(r.disks[0])
        },
        disk_total: if r.disks.len() == 0 {
            prev.disk_total
        } else {
            r.disks[0].total_bytes as int
        },
        network_in: to_counter(sum_received(r.networks)),
        network_out: to_counter(sum_transmitted(r.networks)),
        timestamp: ts,
    }
}

/// For any sampling whose per-interface counters sum within the storable
/// range — every realistic one — the snapshot's network fields are exactly
/// the arithmetic sums of the received and transmitted counters.
pub proof fn lemma_network_sums_exact(prev: SnapView, r: ReadingsView, ts: Seq<char>)
    requires
        sum_received(r.networks) <= u64::MAX,
        sum_transmitted(r.networks) <= u64::MAX,
    ensures
        collect_spec(prev, r, ts).network_in == sum_received(r.networks),
        collect_spec(prev, r, ts).network_out == sum_transmitted(r.networks),
{
}

/// Every per-interface counter is non-negative, so the sums are too.
pub proof fn lemma_sums_nonneg(nets: Seq<NetReading>)
    ensures
        sum_received(nets) >= 0,
        sum_transmitted(nets) >= 0,
    decreases nets.len(),
{
    if nets.len() > 0 {
        lemma_sums_nonneg(nets.drop_last());
    }
}

/// Sums the received-bytes counters, saturating at the largest storable value.
fn total_received(nets: &Vec<NetReading>) -> (r: u64)
    ensures
        r as int == to_counter(sum_received(nets@)),
{
    let mut acc: u64 = 0;
    let mut i: usize = 0;
    while i < nets.len()
        invariant
            i <= nets@.len(),
            acc as int == to_counter(sum_received(nets@.take(i as int))),
        decreases nets@.len() - i,
    {
        proof {
            assert(nets@.take(i + 1).drop_last() =~= nets@.take(i as int));
            assert(nets@.take(i + 1).last() == nets@[i as int]);
            lemma_sums_nonneg(nets@.take(i as int));
        }
        let x: u64 = nets[i].received;
        if acc > u64::MAX - x {
            acc = u64::MAX;
        } else {
            acc = acc + x;
        }
        i = i + 1;
    }
    proof {
        assert(nets@.take(nets@.len() as int) =~= nets@);
    }
    acc
}

/// Sums the transmitted-bytes counters, saturating at the largest storable
/// value.
fn total_transmitted(nets: &Vec<NetReading>) -> (r: u64)
    ensures
        r as int == to_counter(sum_transmitted(nets@)),
{
    let mut acc: u64 = 0;
    let mut i: usize = 0;
    while i < nets.len()
        invariant
            i <= nets@.len(),
            acc as int == to_counter(sum_transmitted(nets@.take(i as int))),
        decreases nets@.len() - i,
    {
        proof {
            assert(nets@.take(i + 1).drop_last() =~= nets@.take(i as int));
            assert(nets@.take(i + 1).last() == nets@[i as int]);
            lemma_sums_nonneg(nets@.take(i as int));
        }
        let x: u64 = nets[i].transmitted;
        if acc > u64::MAX - x {
            acc = u64::MAX;
        } else {
            acc = acc + x;
        }
        i = i + 1;
    }
    proof {
        assert(nets@.take(nets@.len() as int) =~= nets@);
    }
    acc
}

/// The text an optional identity reading contributes: the reading itself, or
/// the empty string where the system had none.
fn text_or_empty(o: &Option<String>) -> (r: String)
    ensures
        r@ == opt_text(
            match o {
                Some(t) => Some(t@),
                None => None,
            },
        ),
{
    match o {
        Some(t) => t.clone(),
        None => String::new(),
    }
}

/// Builds the snapshot of one tick from the previous snapshot, one sampling
/// of the operating system, and the collection timestamp.
///
/// Field by field: missing identity texts become empty strings; memory
/// counters pass through unchanged; the disk fields come from the first
/// enumerated disk, or carry the previous snapshot's values forward when no
/// disk was enumerated; the network fields are the sums over all enumerated
/// interfaces, zero when there are none.
pub fn build_snapshot(prev: &Snapshot, r: &OsReadings, timestamp: String) -> (s: Snapshot)
    ensures
        s@ == collect_spec(prev@, r@, timestamp@),
        r.networks@.len() == 0 ==> s.network_in == 0 && s.network_out == 0,
        s.memory_used == r.memory_used && s.memory_total == r.memory_total,
        r.host_name is None ==> s.host_name@ == Seq::<char>::empty(),
        r.disks@.len() == 0 ==> s.disk_used == prev.disk_used && s.disk_total == prev.disk_total,
{
    let disk_used: u64 = if r.disks.len() == 0 {
        prev.disk_used
    } else {
        let d: DiskReading = r.disks[0];
        if d.available_bytes <= d.total_bytes {
            d.total_bytes - d.available_bytes
        } else {
            0
        }
    };
    let disk_total: u64 = if r.disks.len() == 0 {
        prev.disk_total
    } else {
        r.disks[0].total_bytes
    };
    Snapshot {
        host_name: text_or_empty(&r.host_name),
        system_name: text_or_empty(&r.system_name),
        system_version: text_or_empty(&r.system_version),
        cpu_usage: r.cpu_usage.clone(),
        memory_used: r.memory_used,
        memory_total: r.memory_total,
        disk_used,
        disk_total,
        network_in: total_received(&r.networks),
        network_out: total_transmitted(&r.networks),
        timestamp,
    }
}

} // verus!
