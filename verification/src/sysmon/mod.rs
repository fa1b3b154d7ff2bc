//! Host readings: which reading is asked for, and the provider that answers.

use vstd::prelude::*;

pub mod monitor;
pub mod snapshot;

pub use monitor::Sysmon;
pub use snapshot::MetricsSnapshot;

verus! {

/// The memory counters a provider can be asked for.
#[derive(Clone, Copy, Debug, PartialEq, Eq, Structural)]
pub enum RamInfo {
    TotalMemory,
    UsedMemory,
}

/// The identity strings a provider can be asked for.
#[derive(Clone, Copy, Debug, PartialEq, Eq, Structural)]
pub enum SystemInfo {
    Name,
    KernelVersion,
    OSVersion,
    HostName,
}

/// The processor readings a provider can be asked for.
#[derive(Clone, Copy, Debug, PartialEq, Eq, Structural)]
pub enum CpuInfo {
    NBCpus,
}

/// The disk readings a provider can be asked for.
#[derive(Clone, Copy, Debug, PartialEq, Eq, Structural)]
pub enum DiskInfo {
    DiskNames,
}

} // verus!
