//! The snapshot data model and its unit conversions.
//!
//! Raw collector readings arrive as plain byte counts and raw sensor values;
//! this module turns them into the response entities: RAM in whole megabytes
//! (truncating division by 1024²) and disk sizes as exact gigabyte quantities
//! (division by 1024³ with the sub-gigabyte remainder kept, so nothing is
//! rounded away).

use vstd::prelude::*;

verus! {

use vstd::arithmetic::div_mod::lemma_fundamental_div_mod;
use vstd::arithmetic::div_mod::lemma_div_is_ordered;

/// Number of bytes in one megabyte (1024 * 1024).
pub const BYTES_PER_MB: u64 = 0x10_0000;

/// Number of bytes in one gigabyte (1024 * 1024 * 1024).
pub const BYTES_PER_GB: u64 = 0x4000_0000;

/// One disk volume as the collector reports it: sizes in bytes.
#[derive(Clone, Debug, PartialEq)]
pub struct DiskReading {
    /// The OS device/volume identifier.
    pub name: String,
    /// Total capacity of the volume, in bytes.
    pub total_space: u64,
    /// Space still available on the volume, in bytes.
    pub available_space: u64,
}

/// One temperature sensor entry, passed through the snapshot unchanged.
///
/// The reading is carried as the raw bit pattern of the sensor's
/// single-precision value, so the snapshot neither inspects nor alters it.
#[derive(Clone, Debug, PartialEq)]
pub struct TempInfo {
    /// The sensor name as reported by the hardware.
    pub label: String,
    /// The sensor reading, as the bit pattern of its 32-bit value.
    pub temperature_bits: u32,
}

/// An exact gigabyte quantity: `whole + frac / 2^30` gigabytes.
///
/// Keeping the sub-gigabyte remainder `frac` (always below 2^30) instead of
/// rounding means the original byte count is recoverable exactly.
#[derive(Clone, Copy, Debug, PartialEq, Eq, Structural)]
pub struct GbValue {
    /// Whole gigabytes.
    pub whole: u64,
    /// Remaining bytes below one gigabyte.
    pub frac: u64,
}

impl GbValue {
    /// A well-formed quantity keeps its remainder below one gigabyte.
    pub open spec fn wf(self) -> bool {
        self.frac < BYTES_PER_GB
    }

    /// The byte count this quantity stands for.
    pub open spec fn as_bytes(self) -> int {
        self.whole * BYTES_PER_GB + self.frac
    }
}

/// The gigabyte quantity a byte count converts to.
pub open spec fn spec_gb_of_bytes(bytes: u64) -> GbValue {
    GbValue {
        whole: (bytes as int / BYTES_PER_GB as int) as u64,
        frac: (bytes as int % BYTES_PER_GB as int) as u64,
    }
}

/// Converting a byte count to gigabytes is exact: the result is well formed
/// and stands for precisely the bytes that went in.
pub proof fn lemma_gb_conversion_exact(bytes: u64)
    ensures
        spec_gb_of_bytes(bytes).wf(),
        spec_gb_of_bytes(bytes).as_bytes() == bytes,
{
    lemma_fundamental_div_mod(bytes as int, BYTES_PER_GB as int);
}

/// Converts a byte count to an exact gigabyte quantity (division by 1024³,
/// remainder kept).
pub fn bytes_to_gb(bytes: u64) -> (r: GbValue)
    ensures
        r == spec_gb_of_bytes(bytes),
        r.wf(),
        r.as_bytes() == bytes,
{
    proof {
        lemma_gb_conversion_exact(bytes);
    }
    GbValue { whole: bytes / BYTES_PER_GB, frac: bytes % BYTES_PER_GB }
}

/// Converts a byte count to whole megabytes (truncating division by 1024²).
pub fn bytes_to_mb(bytes: u64) -> (r: u64)
    ensures
        r == bytes as int / BYTES_PER_MB as int,
{
    bytes / BYTES_PER_MB
}

/// One disk volume as the response reports it: sizes in exact gigabytes.
#[derive(Clone, Debug, PartialEq)]
pub struct DiskInfo {
    /// The OS device/volume identifier.
    pub name: String,
    /// Total capacity of the volume, in gigabytes.
    pub total_space: GbValue,
    /// Space still available on the volume, in gigabytes.
    pub available_space: GbValue,
}

impl DiskInfo {
    /// Both quantities are well formed and availability never exceeds capacity.
    pub open spec fn wf(self) -> bool {
        &&& self.total_space.wf()
        &&& self.available_space.wf()
        &&& self.available_space.as_bytes() <= self.total_space.as_bytes()
    }

    /// This entry is the faithful conversion of the given raw reading.
    pub open spec fn converts(self, d: DiskReading) -> bool {
        &&& self.name@ == d.name@
        &&& self.total_space == spec_gb_of_bytes(d.total_space)
        &&& self.available_space == spec_gb_of_bytes(d.available_space)
    }
}

/// The root response entity: one complete snapshot of the host's metrics.
#[derive(Clone, Debug, PartialEq)]
pub struct SystemStats {
    /// Global CPU utilisation percentage, carried as the bit pattern of the
    /// collector's 32-bit reading, unchanged.
    pub cpu_usage_bits: u32,
    /// RAM in use, in whole megabytes.
    pub ram_used: u64,
    /// Total RAM, in whole megabytes.
    pub ram_total: u64,
    /// One entry per detected volume, in the collector's enumeration order.
    pub disks: Vec<DiskInfo>,
    /// One entry per detected sensor, in the collector's enumeration order.
    pub temperatures: Vec<TempInfo>,
}

/// The snapshot `r` is exactly what assembling the given raw readings yields:
/// CPU bits unchanged, RAM counters in truncated megabytes, one disk entry per
/// reading in order (names kept, sizes converted to exact gigabytes), and the
/// sensor entries unchanged and in order.
pub open spec fn stats_matches(
    r: SystemStats,
    cpu_usage_bits: u32,
    used_bytes: u64,
    total_bytes: u64,
    disks: Seq<DiskReading>,
    temperatures: Seq<TempInfo>,
) -> bool {
    &&& r.cpu_usage_bits == cpu_usage_bits
    &&& r.ram_used == used_bytes as int / BYTES_PER_MB as int
    &&& r.ram_total == total_bytes as int / BYTES_PER_MB as int
    &&& r.disks@.len() == disks.len()
    &&& forall|i: int| 0 <= i < disks.len() ==> #[trigger] r.disks@[i].converts(disks[i])
    &&& r.temperatures@.len() == temperatures.len()
    &&& forall|i: int|
        0 <= i < temperatures.len() ==> {
            &&& (#[trigger] r.temperatures@[i]).label@ == temperatures[i].label@
            &&& r.temperatures@[i].temperature_bits == temperatures[i].temperature_bits
        }
}

/// Assembles one snapshot from raw collector readings: the pure core of the
/// service. Every unit conversion and the enumeration order are pinned down
/// by `stats_matches`.
pub fn build_stats(
    cpu_usage_bits: u32,
    used_bytes: u64,
    total_bytes: u64,
    disks: Vec<DiskReading>,
    temperatures: Vec<TempInfo>,
) -> (r: SystemStats)
    ensures
        stats_matches(r, cpu_usage_bits, used_bytes, total_bytes, disks@, temperatures@),
{
    let ram_used = bytes_to_mb(used_bytes);
    let ram_total = bytes_to_mb(total_bytes);
    let mut disk_infos: Vec<DiskInfo> = Vec::new();
    let mut i: usize = 0;
    while i < disks.len()
        invariant
            i <= disks@.len(),
            disk_infos@.len() == i,
            forall|j: int| 0 <= j < i ==> #[trigger] disk_infos@[j].converts(disks@[j]),
        decreases disks@.len() - i,
    {
        let d = &disks[i];
        let info = DiskInfo {
            name: d.name.clone(),
            total_space: bytes_to_gb(d.total_space),
            available_space: bytes_to_gb(d.available_space),
        };
        disk_infos.push(info);
        i = i + 1;
    }
    SystemStats { cpu_usage_bits, ram_used, ram_total, disks: disk_infos, temperatures }
}

/// When the collector reports no more memory in use than the host has, the
/// snapshot's megabyte counters keep that order: `ram_used <= ram_total`.
pub proof fn lemma_ram_order_preserved(
    r: SystemStats,
    cpu_usage_bits: u32,
    used_bytes: u64,
    total_bytes: u64,
    disks: Seq<DiskReading>,
    temperatures: Seq<TempInfo>,
)
    requires
        stats_matches(r, cpu_usage_bits, used_bytes, total_bytes, disks, temperatures),
        used_bytes <= total_bytes,
    ensures
        r.ram_used <= r.ram_total,
{
    lemma_div_is_ordered(used_bytes as int, total_bytes as int, BYTES_PER_MB as int);
}

/// When a volume's available bytes do not exceed its total bytes — true of
/// any real filesystem — its snapshot entry is well formed: the gigabyte
/// quantities keep that order exactly.
pub proof fn lemma_disk_order_preserved(
    r: SystemStats,
    cpu_usage_bits: u32,
    used_bytes: u64,
    total_bytes: u64,
    disks: Seq<DiskReading>,
    temperatures: Seq<TempInfo>,
)
    requires
        stats_matches(r, cpu_usage_bits, used_bytes, total_bytes, disks, temperatures),
        forall|i: int|
            0 <= i < disks.len() ==> (#[trigger] disks[i]).available_space <= disks[i].total_space,
    ensures
        forall|i: int| 0 <= i < r.disks@.len() ==> (#[trigger] r.disks@[i]).wf(),
{
    assert forall|i: int| 0 <= i < r.disks@.len() implies (#[trigger] r.disks@[i]).wf() by {
        assert(r.disks@[i].converts(disks[i]));
        lemma_gb_conversion_exact(disks[i].total_space);
        lemma_gb_conversion_exact(disks[i].available_space);
    }
}

/// Reading the snapshot is deterministic: two snapshots assembled from the
/// same readings agree on every field — the idempotence behind calling the
/// endpoint twice with no system change.
pub proof fn lemma_snapshot_deterministic(
    r1: SystemStats,
    r2: SystemStats,
    cpu_usage_bits: u32,
    used_bytes: u64,
    total_bytes: u64,
    disks: Seq<DiskReading>,
    temperatures: Seq<TempInfo>,
)
    requires
        stats_matches(r1, cpu_usage_bits, used_bytes, total_bytes, disks, temperatures),
        stats_matches(r2, cpu_usage_bits, used_bytes, total_bytes, disks, temperatures),
    ensures
        r1.cpu_usage_bits == r2.cpu_usage_bits,
        r1.ram_used == r2.ram_used,
        r1.ram_total == r2.ram_total,
        r1.disks@.len() == r2.disks@.len(),
        forall|i: int|
            0 <= i < r1.disks@.len() ==> {
                &&& (#[trigger] r1.disks@[i]).name@ == r2.disks@[i].name@
                &&& r1.disks@[i].total_space == r2.disks@[i].total_space
                &&& r1.disks@[i].available_space == r2.disks@[i].available_space
            },
        r1.temperatures@.len() == r2.temperatures@.len(),
        forall|i: int|
            0 <= i < r1.temperatures@.len() ==> {
                &&& (#[trigger] r1.temperatures@[i]).label@ == r2.temperatures@[i].label@
                &&& r1.temperatures@[i].temperature_bits == r2.temperatures@[i].temperature_bits
            },
{
    assert forall|i: int| 0 <= i < r1.disks@.len() implies {
        &&& (#[trigger] r1.disks@[i]).name@ == r2.disks@[i].name@
        &&& r1.disks@[i].total_space == r2.disks@[i].total_space
        &&& r1.disks@[i].available_space == r2.disks@[i].available_space
    } by {
        assert(r1.disks@[i].converts(disks[i]));
        assert(r2.disks@[i].converts(disks[i]));
    }
}

/// A host with nothing to enumerate yields empty sequences, not an error:
/// zero disk readings and zero sensors give a snapshot whose `disks` and
/// `temperatures` are empty.
pub proof fn lemma_empty_enumeration(
    r: SystemStats,
    cpu_usage_bits: u32,
    used_bytes: u64,
    total_bytes: u64,
    disks: Seq<DiskReading>,
    temperatures: Seq<TempInfo>,
)
    requires
        stats_matches(r, cpu_usage_bits, used_bytes, total_bytes, disks, temperatures),
        disks.len() == 0,
        temperatures.len() == 0,
    ensures
        r.disks@.len() == 0,
        r.temperatures@.len() == 0,
{
}

} // verus!
