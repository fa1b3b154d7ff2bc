//! The provider of host readings, backed by the `sysinfo` crate.
//!
//! A `Sysmon` holds two handles of that crate. What a handle holds is
//! named by the functions without a body below; the private functions that
//! call into the crate are believed, not proved.

use vstd::prelude::*;
use sysinfo::{Disks, System};
use crate::sysmon::{CpuInfo, DiskInfo, RamInfo, SystemInfo};
use crate::text::{join, joined, texts};
use crate::units::{gb_hundredths, hundredths_of_gb};

verus! {

/// `sysinfo::System`, carried as an opaque value.
#[verifier::external_type_specification]
#[verifier::external_body]
pub struct ExSystem(System);

/// `sysinfo::Disk`, one entry of a disk list, opaque. It stands in no
/// signature here; `Disks` dereferences to a slice of it, so it has to be
/// declared for `Disks` to be accepted.
#[verifier::external_type_specification]
#[verifier::external_body]
pub struct ExDisk(sysinfo::Disk);

/// `sysinfo::Disks`, carried as an opaque value.
#[verifier::external_type_specification]
#[verifier::external_body]
pub struct ExDisks(Disks);

/// The RAM size in bytes that `system` holds since it was last refreshed.
pub uninterp spec fn system_total_memory(system: System) -> u64;

/// The available RAM in bytes that `system` holds since it was last
/// refreshed.
pub uninterp spec fn system_available_memory(system: System) -> u64;

/// The used RAM in bytes that `system` reports from what it holds.
pub uninterp spec fn system_used_memory(system: System) -> u64;

/// The number of logical processors that `system` lists.
pub uninterp spec fn system_cpu_count(system: System) -> usize;

/// The names of the disks that `disks` lists, in its order, each as text.
pub uninterp spec fn disk_list(disks: Disks) -> Seq<Seq<char>>;

/// `System::new_all`: a handle with every reading loaded from the host.
/// Nothing is claimed of what it holds.
#[verifier::external_body]
fn load_system() -> (system: System) {
    System::new_all()
}

/// `System::refresh_memory`: reads the memory counters again. Nothing is
/// claimed of the handle afterwards.
#[verifier::external_body]
fn refresh_memory(system: &mut System) {
    system.refresh_memory()
}

/// `Disks::new_with_refreshed_list`: a list loaded from the host. Nothing
/// is claimed of what it holds.
#[verifier::external_body]
fn load_disks() -> (disks: Disks) {
    Disks::new_with_refreshed_list()
}

/// `System::total_memory`: a getter of the held RAM size.
#[verifier::external_body]
fn total_memory(system: &System) -> (bytes: u64)
    ensures
        bytes == system_total_memory(*system),
{
    system.total_memory()
}

/// `System::available_memory`: a getter of the held available RAM.
#[verifier::external_body]
fn available_memory(system: &System) -> (bytes: u64)
    ensures
        bytes == system_available_memory(*system),
{
    system.available_memory()
}

/// `System::used_memory`: computed from the held counters alone. On Linux
/// it subtracts the available RAM from the RAM size, so the call is made
/// only where that cannot underflow.
#[verifier::external_body]
fn used_memory(system: &System) -> (bytes: u64)
    requires
        system_available_memory(*system) <= system_total_memory(*system),
    ensures
        bytes == system_used_memory(*system),
{
    system.used_memory()
}

/// `System::cpus`, of which the length is taken.
#[verifier::external_body]
fn cpu_count(system: &System) -> (count: usize)
    ensures
        count == system_cpu_count(*system),
{
    system.cpus().len()
}

/// `Disks::list` and, of each entry, `Disk::name`, turned into a `String`
/// with replacement characters where the name is no valid UTF-8.
#[verifier::external_body]
fn list_disk_names(disks: &Disks) -> (names: Vec<String>)
    ensures
        texts(names@) == disk_list(*disks),
{
    disks.list().iter().map(|disk| disk.name().to_string_lossy().into_owned()).collect()
}

/// `System::name`: asked of the host at each call; `None` where the host
/// does not tell.
#[verifier::external_body]
fn os_name() -> (name: Option<String>) {
    System::name()
}

/// `System::kernel_version`: asked of the host at each call.
#[verifier::external_body]
fn kernel_version() -> (version: Option<String>) {
    System::kernel_version()
}

/// `System::os_version`: asked of the host at each call.
#[verifier::external_body]
fn os_version() -> (version: Option<String>) {
    System::os_version()
}

/// `System::host_name`: asked of the host at each call.
#[verifier::external_body]
fn host_name() -> (name: Option<String>) {
    System::host_name()
}

/// The provider of host readings.
pub struct Sysmon {
    pub system: System,
    pub disks: Disks,
}

impl Sysmon {
    /// The used RAM that this provider reads: what its handle reports
    /// where the held counters are consistent, else zero.
    pub open spec fn used_memory(&self) -> u64 {
        if system_available_memory(self.system) <= system_total_memory(self.system) {
            system_used_memory(self.system)
        } else {
            0
        }
    }

    /// The reading that `ram` gives for `info`.
    pub open spec fn ram_reading(&self, info: RamInfo) -> u64 {
        match info {
            RamInfo::TotalMemory => system_total_memory(self.system),
            RamInfo::UsedMemory => self.used_memory(),
        }
    }

    /// A provider with all readings loaded and the memory counters fresh.
    pub fn new() -> (provider: Self) {
        let mut system = load_system();
        refresh_memory(&mut system);
        Sysmon { system, disks: load_disks() }
    }

    /// A memory counter in bytes, as held since the last refresh.
    pub fn ram(&self, info: RamInfo) -> (bytes: u64)
        ensures
            bytes == self.ram_reading(info),
    {
        match info {
            RamInfo::TotalMemory => total_memory(&self.system),
            RamInfo::UsedMemory => {
                if available_memory(&self.system) <= total_memory(&self.system) {
                    used_memory(&self.system)
                } else {
                    0
                }
            },
        }
    }

    /// Gigabytes in `bytes`, in hundredths.
    pub fn bytes_to_gb(bytes: u64) -> (hundredths: u64)
        ensures
            hundredths == gb_hundredths(bytes as nat),
    {
        hundredths_of_gb(bytes)
    }

    /// An identity string of the host, asked anew at each call; `None`
    /// where the host does not tell.
    pub fn system_info(&self, info: SystemInfo) -> (text: Option<String>) {
        match info {
            SystemInfo::Name => os_name(),
            SystemInfo::KernelVersion => kernel_version(),
            SystemInfo::OSVersion => os_version(),
            SystemInfo::HostName => host_name(),
        }
    }

    /// The number of logical processors.
    pub fn cpu_info(&self, info: CpuInfo) -> (count: Option<usize>)
        ensures
            count == Some(system_cpu_count(self.system)),
    {
        match info {
            CpuInfo::NBCpus => Some(cpu_count(&self.system)),
        }
    }

    /// The names of the listed disks, in the list's order.
    pub fn disk_names(&self) -> (names: Vec<String>)
        ensures
            texts(names@) == disk_list(self.disks),
    {
        list_disk_names(&self.disks)
    }

    /// The names of the listed disks in one line, separated by a comma and
    /// a space.
    pub fn disk_info(&self, info: DiskInfo) -> (line: Option<String>)
        ensures
            line is Some,
            line->0@ == joined(disk_list(self.disks), ", "@),
    {
        match info {
            DiskInfo::DiskNames => {
                let names = list_disk_names(&self.disks);
                Some(join(&names, ", "))
            },
        }
    }
}

} // verus!
