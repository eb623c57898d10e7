//! Trusted boundary to the host's metric interfaces, through the `sysinfo`
//! crate.
//!
//! Every reading here depends on the host's state at the moment of the call,
//! so none of these contracts pins a value down; the verified assembly in
//! `stats` takes the readings as arguments and is proved for every outcome.

use vstd::prelude::*;
use crate::stats::DiskReading;
use crate::stats::TempInfo;

verus! {

#[verifier::external_type_specification]
#[verifier::external_body]
pub struct ExSystem(sysinfo::System);

#[verifier::external_type_specification]
#[verifier::external_body]
pub struct ExCpu(sysinfo::Cpu);

#[verifier::external_type_specification]
#[verifier::external_body]
pub struct ExDisk(sysinfo::Disk);

#[verifier::external_type_specification]
#[verifier::external_body]
pub struct ExDisks(sysinfo::Disks);

#[verifier::external_type_specification]
#[verifier::external_body]
pub struct ExComponent(sysinfo::Component);

#[verifier::external_type_specification]
#[verifier::external_body]
pub struct ExComponents(sysinfo::Components);

/// Relies on sysinfo::System::new_all: creates a collector view with every
/// metric loaded once.
#[verifier::external_body]
pub(crate) fn system_new_all() -> sysinfo::System {
    sysinfo::System::new_all()
}

/// Relies on sysinfo::System::refresh_all: re-reads every metric of the host.
#[verifier::external_body]
pub(crate) fn system_refresh_all(sys: &mut sysinfo::System) {
    sys.refresh_all();
}

/// Relies on sysinfo::System::used_memory: the RAM in use, in bytes.
#[verifier::external_body]
pub(crate) fn system_used_memory(sys: &sysinfo::System) -> u64 {
    sys.used_memory()
}

/// Relies on sysinfo::System::total_memory: the total RAM, in bytes.
#[verifier::external_body]
pub(crate) fn system_total_memory(sys: &sysinfo::System) -> u64 {
    sys.total_memory()
}

/// Relies on sysinfo::System::global_cpu_info: the host-wide CPU entry.
#[verifier::external_body]
pub(crate) fn system_global_cpu(sys: &sysinfo::System) -> &sysinfo::Cpu {
    sys.global_cpu_info()
}

/// Relies on sysinfo::Cpu::cpu_usage: the utilisation percentage, handed on
/// as the unchanged bit pattern of the 32-bit reading.
#[verifier::external_body]
pub(crate) fn cpu_usage_bits(cpu: &sysinfo::Cpu) -> u32 {
    cpu.cpu_usage().to_bits()
}

/// Relies on sysinfo::Disks::new_with_refreshed_list: enumerates the host's
/// disk volumes afresh.
#[verifier::external_body]
pub(crate) fn disks_new_refreshed() -> sysinfo::Disks {
    sysinfo::Disks::new_with_refreshed_list()
}

/// Relies on sysinfo::Disks::list and, per volume, sysinfo::Disk::name,
/// sysinfo::Disk::total_space and sysinfo::Disk::available_space (both byte
/// counts): hands each volume out as a plain reading, in enumeration order.
#[verifier::external_body]
pub(crate) fn disk_readings(disks: &sysinfo::Disks) -> Vec<DiskReading> {
    disks
        .list()
        .iter()
        .map(|d| DiskReading {
            name: d.name().to_string_lossy().into_owned(),
            total_space: d.total_space(),
            available_space: d.available_space(),
        })
        .collect()
}

/// Relies on sysinfo::Components::new_with_refreshed_list: enumerates the
/// host's temperature sensors afresh.
#[verifier::external_body]
pub(crate) fn components_new_refreshed() -> sysinfo::Components {
    sysinfo::Components::new_with_refreshed_list()
}

/// Relies on sysinfo::Components::list and, per sensor, on
/// sysinfo::Component::label and sysinfo::Component::temperature: hands each
/// sensor out as a plain entry, in enumeration order, the reading as its
/// unchanged bit pattern.
#[verifier::external_body]
pub(crate) fn component_readings(components: &sysinfo::Components) -> Vec<TempInfo> {
    components
        .list()
        .iter()
        .map(|c| TempInfo { label: c.label().to_string(), temperature_bits: c.temperature().to_bits() })
        .collect()
}

} // verus!
