use vstd::prelude::*;

verus! {

/// One immutable measurement of host metrics at a collection instant.
///
/// Byte quantities are raw counters as the operating system reports them;
/// `cpu_usage` is the decimal text of the aggregate CPU percentage across all
/// cores; `timestamp` is RFC 3339 text generated at collection time.
pub struct Snapshot {
    pub host_name: String,
    pub system_name: String,
    pub system_version: String,
    pub cpu_usage: String,
    pub memory_used: u64,
    pub memory_total: u64,
    pub disk_used: u64,
    pub disk_total: u64,
    pub network_in: u64,
    pub network_out: u64,
    pub timestamp: String,
}

/// The mathematical value of a [`Snapshot`]: text fields as character
/// sequences, counters as unbounded integers.
pub ghost struct SnapView {
    pub host_name: Seq<char>,
    pub system_name: Seq<char>,
    pub system_version: Seq<char>,
    pub cpu_usage: Seq<char>,
    pub memory_used: int,
    pub memory_total: int,
    pub disk_used: int,
    pub disk_total: int,
    pub network_in: int,
    pub network_out: int,
    pub timestamp: Seq<char>,
}

impl View for Snapshot {
    type V = SnapView;

    open spec fn view(&self) -> SnapView {
        SnapView {
            host_name: self.host_name@,
            system_name: self.system_name@,
            system_version: self.system_version@,
            cpu_usage: self.cpu_usage@,
            memory_used: self.memory_used as int,
            memory_total: self.memory_total as int,
            disk_used: self.disk_used as int,
            disk_total: self.disk_total as int,
            network_in: self.network_in as int,
            network_out: self.network_out as int,
            timestamp: self.timestamp@,
        }
    }
}

/// The value of the snapshot a process starts from, before any reading has
/// been taken: every text field empty, every counter zero.
pub open spec fn initial_view() -> SnapView {
    SnapView {
        host_name: Seq::<char>::empty(),
        system_name: Seq::<char>::empty(),
        system_version: Seq::<char>::empty(),
        cpu_usage: Seq::<char>::empty(),
        memory_used: 0,
        memory_total: 0,
        disk_used: 0,
        disk_total: 0,
        network_in: 0,
        network_out: 0,
        timestamp: Seq::<char>::empty(),
    }
}

impl Snapshot {
    /// The snapshot a process starts from, before any reading has been taken.
    pub fn initial() -> (s: Snapshot)
        ensures
            s@ == initial_view(),
    {
        Snapshot {
            host_name: String::new(),
            system_name: String::new(),
            system_version: String::new(),
            cpu_usage: String::new(),
            memory_used: 0,
            memory_total: 0,
            disk_used: 0,
            disk_total: 0,
            network_in: 0,
            network_out: 0,
            timestamp: String::new(),
        }
    }
}

impl Clone for Snapshot {
    fn clone(&self) -> (s: Self)
        ensures
            s@ == self@,
    {
        Snapshot {
            host_name: self.host_name.clone(),
            system_name: self.system_name.clone(),
            system_version: self.system_version.clone(),
            cpu_usage: self.cpu_usage.clone(),
            memory_used: self.memory_used,
            memory_total: self.memory_total,
            disk_used: self.disk_used,
            disk_total: self.disk_total,
            network_in: self.network_in,
            network_out: self.network_out,
            timestamp: self.timestamp.clone(),
        }
    }
}

} // verus!
