//! The snapshot service: one fresh collection per call, assembled into a
//! `SystemStats` by the verified core.

use vstd::prelude::*;
use crate::collector;
use crate::stats::DiskReading;
use crate::stats::SystemStats;
use crate::stats::TempInfo;
use crate::stats::build_stats;
use crate::stats::lemma_gb_conversion_exact;
use crate::stats::stats_matches;

verus! {

/// The snapshot is a faithful assembly of some set of collector readings:
/// whatever the host reported, the conversions and the ordering of
/// `stats_matches` were applied to it unchanged.
pub open spec fn from_readings(r: SystemStats) -> bool {
    exists|
        cpu_usage_bits: u32,
        used_bytes: u64,
        total_bytes: u64,
        disks: Seq<DiskReading>,
        temperatures: Seq<TempInfo>,
    | stats_matches(r, cpu_usage_bits, used_bytes, total_bytes, disks, temperatures)
}

/// Produces one `SystemStats` for the host, right now: refreshes CPU and
/// memory metrics, re-enumerates disk volumes and temperature sensors (each
/// its own fresh read, so mounts and sensors appearing or vanishing are
/// reflected immediately), and assembles the response through the verified
/// core. Never fails: a host with nothing to enumerate yields empty
/// sequences.
pub fn get_stats() -> (r: SystemStats)
    ensures
        from_readings(r),
        forall|i: int|
            0 <= i < r.disks@.len() ==> {
                &&& (#[trigger] r.disks@[i]).total_space.wf()
                &&& r.disks@[i].available_space.wf()
            },
{
    let mut sys = collector::system_new_all();
    collector::system_refresh_all(&mut sys);

    let used_bytes = collector::system_used_memory(&sys);
    let total_bytes = collector::system_total_memory(&sys);
    let cpu = collector::system_global_cpu(&sys);
    let cpu_usage_bits = collector::cpu_usage_bits(cpu);

    let disks_list = collector::disks_new_refreshed();
    let disks = collector::disk_readings(&disks_list);

    let components_list = collector::components_new_refreshed();
    let temperatures = collector::component_readings(&components_list);

    let ghost disks_view = disks@;
    let ghost temps_view = temperatures@;
    let r = build_stats(cpu_usage_bits, used_bytes, total_bytes, disks, temperatures);
    proof {
        assert(stats_matches(r, cpu_usage_bits, used_bytes, total_bytes, disks_view, temps_view));
        assert forall|i: int| 0 <= i < r.disks@.len() implies {
            &&& (#[trigger] r.disks@[i]).total_space.wf()
            &&& r.disks@[i].available_space.wf()
        } by {
            assert(r.disks@[i].converts(disks_view[i]));
            lemma_gb_conversion_exact(disks_view[i].total_space);
            lemma_gb_conversion_exact(disks_view[i].available_space);
        }
    }
    r
}

} // verus!
