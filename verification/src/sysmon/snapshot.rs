//! The snapshot: every reading of one tick, as the provider gave it.

use vstd::prelude::*;
use crate::sysmon::monitor::{disk_list, system_cpu_count, system_total_memory, Sysmon};
use crate::sysmon::{CpuInfo, RamInfo, SystemInfo};
use crate::text::texts;

verus! {

/// The text that an optional string holds, if it holds one.
pub open spec fn text_of(value: Option<String>) -> Option<Seq<char>> {
    match value {
        Some(text) => Some(text@),
        None => None,
    }
}

/// What a snapshot holds, as plain values.
pub struct SnapshotView {
    pub total_memory_bytes: u64,
    pub used_memory_bytes: u64,
    pub os_name: Option<Seq<char>>,
    pub os_version: Option<Seq<char>>,
    pub kernel_version: Option<Seq<char>>,
    pub host_name: Option<Seq<char>>,
    pub cpu_count: usize,
    pub disk_names: Seq<Seq<char>>,
}

/// The readings of one tick. Memory is kept in bytes and absent strings
/// stay absent: units and placeholders belong to the drawing.
#[derive(Debug)]
pub struct MetricsSnapshot {
    pub total_memory_bytes: u64,
    pub used_memory_bytes: u64,
    pub os_name: Option<String>,
    pub os_version: Option<String>,
    pub kernel_version: Option<String>,
    pub host_name: Option<String>,
    pub cpu_count: usize,
    pub disk_names: Vec<String>,
}

impl View for MetricsSnapshot {
    type V = SnapshotView;

    open spec fn view(&self) -> SnapshotView {
        SnapshotView {
            total_memory_bytes: self.total_memory_bytes,
            used_memory_bytes: self.used_memory_bytes,
            os_name: text_of(self.os_name),
            os_version: text_of(self.os_version),
            kernel_version: text_of(self.kernel_version),
            host_name: text_of(self.host_name),
            cpu_count: self.cpu_count,
            disk_names: texts(self.disk_names@),
        }
    }
}

/// The snapshot that a set of readings makes: each reading in its field,
/// and a processor count that is absent taken as zero.
pub open spec fn snapshot_of(
    total_memory_bytes: u64,
    used_memory_bytes: u64,
    os_name: Option<Seq<char>>,
    os_version: Option<Seq<char>>,
    kernel_version: Option<Seq<char>>,
    host_name: Option<Seq<char>>,
    cpu_count: Option<usize>,
    disk_names: Seq<Seq<char>>,
) -> SnapshotView {
    SnapshotView {
        total_memory_bytes,
        used_memory_bytes,
        os_name,
        os_version,
        kernel_version,
        host_name,
        cpu_count: match cpu_count {
            Some(count) => count,
            None => 0,
        },
        disk_names,
    }
}

impl MetricsSnapshot {
    /// Whether the fields that a provider holds by itself (memory,
    /// processors, disks) are those of `provider`.
    pub open spec fn reads(&self, provider: &Sysmon) -> bool {
        &&& self.total_memory_bytes == system_total_memory(provider.system)
        &&& self.used_memory_bytes == provider.used_memory()
        &&& self.cpu_count == system_cpu_count(provider.system)
        &&& texts(self.disk_names@) == disk_list(provider.disks)
    }

    /// Whether the four identity strings are the same in both snapshots.
    pub open spec fn same_identity(&self, other: &MetricsSnapshot) -> bool {
        &&& self@.os_name == other@.os_name
        &&& self@.os_version == other@.os_version
        &&& self@.kernel_version == other@.kernel_version
        &&& self@.host_name == other@.host_name
    }

    /// Puts the readings of one tick together.
    pub fn from_readings(
        total_memory_bytes: u64,
        used_memory_bytes: u64,
        os_name: Option<String>,
        os_version: Option<String>,
        kernel_version: Option<String>,
        host_name: Option<String>,
        cpu_count: Option<usize>,
        disk_names: Vec<String>,
    ) -> (snapshot: Self)
        ensures
            snapshot@ == snapshot_of(
                total_memory_bytes,
                used_memory_bytes,
                text_of(os_name),
                text_of(os_version),
                text_of(kernel_version),
                text_of(host_name),
                cpu_count,
                texts(disk_names@),
            ),
    {
        let cpu_count = match cpu_count {
            Some(count) => count,
            None => 0,
        };
        MetricsSnapshot {
            total_memory_bytes,
            used_memory_bytes,
            os_name,
            os_version,
            kernel_version,
            host_name,
            cpu_count,
            disk_names,
        }
    }

    /// Reads every metric from `provider` once. The identity strings are
    /// whatever the host answers at this moment.
    pub fn build(provider: &Sysmon) -> (snapshot: Self)
        ensures
            snapshot.reads(provider),
    {
        let total = provider.ram(RamInfo::TotalMemory);
        let used = provider.ram(RamInfo::UsedMemory);
        let os_name = provider.system_info(SystemInfo::Name);
        let os_version = provider.system_info(SystemInfo::OSVersion);
        let kernel_version = provider.system_info(SystemInfo::KernelVersion);
        let host_name = provider.system_info(SystemInfo::HostName);
        let cpu_count = provider.cpu_info(CpuInfo::NBCpus);
        let disk_names = provider.disk_names();
        MetricsSnapshot::from_readings(
            total,
            used,
            os_name,
            os_version,
            kernel_version,
            host_name,
            cpu_count,
            disk_names,
        )
    }

    /// Building twice from one provider, with the host answering the same
    /// identity strings both times, gives the same snapshot field by field.
    pub proof fn lemma_build_is_repeatable(
        provider: &Sysmon,
        first: &MetricsSnapshot,
        second: &MetricsSnapshot,
    )
        requires
            first.reads(provider),
            second.reads(provider),
            first.same_identity(second),
        ensures
            first@ == second@,
    {
    }
}

} // verus!
