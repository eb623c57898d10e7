use sysstats::stats::build_stats;
use sysstats::stats::bytes_to_gb;
use sysstats::stats::bytes_to_mb;
use sysstats::stats::DiskReading;
use sysstats::stats::GbValue;
use sysstats::stats::TempInfo;

const MB: u64 = 1024 * 1024;
const GB: u64 = 1024 * 1024 * 1024;

fn gb_as_f64(v: &GbValue) -> f64 {
    v.whole as f64 + v.frac as f64 / GB as f64
}

fn gb_as_bytes(v: &GbValue) -> u128 {
    v.whole as u128 * GB as u128 + v.frac as u128
}

#[test]
fn mb_values_echo_without_double_conversion() {
    let r = build_stats(0, 512 * MB, 1024 * MB, Vec::new(), Vec::new());
    assert_eq!(r.ram_used, 512);
    assert_eq!(r.ram_total, 1024);
    assert!(r.ram_used <= r.ram_total);
}

#[test]
fn mb_conversion_truncates_fractions() {
    assert_eq!(bytes_to_mb(0), 0);
    assert_eq!(bytes_to_mb(MB - 1), 0);
    assert_eq!(bytes_to_mb(MB), 1);
    assert_eq!(bytes_to_mb(3 * MB + MB - 1), 3);
}

#[test]
fn gb_conversion_ten_gib_is_exactly_ten() {
    let v = bytes_to_gb(10 * GB);
    assert_eq!(v, GbValue { whole: 10, frac: 0 });
    assert_eq!(gb_as_f64(&v), 10.0);
}

#[test]
fn gb_conversion_keeps_sub_gb_precision() {
    let v = bytes_to_gb(GB + GB / 2);
    assert_eq!(v, GbValue { whole: 1, frac: GB / 2 });
    assert_eq!(gb_as_f64(&v), 1.5);
}

#[test]
fn gb_conversion_is_exact_at_the_largest_size() {
    let v = bytes_to_gb(u64::MAX);
    assert_eq!(gb_as_bytes(&v), u64::MAX as u128);
    assert!(v.frac < GB);
}

#[test]
fn disk_entries_are_converted_in_enumeration_order() {
    let disks = vec![
        DiskReading { name: "sda".to_string(), total_space: 10 * GB, available_space: 5 * GB },
        DiskReading { name: "sdb".to_string(), total_space: 2 * GB + GB / 4, available_space: GB / 4 },
    ];
    let r = build_stats(0, 0, 0, disks, Vec::new());
    assert_eq!(r.disks.len(), 2);
    assert_eq!(r.disks[0].name, "sda");
    assert_eq!(r.disks[1].name, "sdb");
    assert_eq!(r.disks[0].total_space, GbValue { whole: 10, frac: 0 });
    assert_eq!(r.disks[0].available_space, GbValue { whole: 5, frac: 0 });
    assert_eq!(r.disks[1].total_space, GbValue { whole: 2, frac: GB / 4 });
    assert_eq!(r.disks[1].available_space, GbValue { whole: 0, frac: GB / 4 });
    for d in &r.disks {
        assert!(gb_as_bytes(&d.available_space) <= gb_as_bytes(&d.total_space));
    }
}

#[test]
fn same_readings_yield_identical_snapshots() {
    let disks = vec![DiskReading {
        name: "root".to_string(),
        total_space: 123_456_789_012,
        available_space: 98_765_432_101,
    }];
    let temps = vec![TempInfo { label: "cpu".to_string(), temperature_bits: 55.5f32.to_bits() }];
    let r1 = build_stats(7, 2048 * MB, 8192 * MB, disks.clone(), temps.clone());
    let r2 = build_stats(7, 2048 * MB, 8192 * MB, disks, temps);
    assert_eq!(r1, r2);
}

#[test]
fn empty_enumeration_yields_empty_sequences() {
    let r = build_stats(0, 256 * MB, 512 * MB, Vec::new(), Vec::new());
    assert!(r.disks.is_empty());
    assert!(r.temperatures.is_empty());
    assert_eq!(r.ram_used, 256);
    assert_eq!(r.ram_total, 512);
}

#[test]
fn temperature_readings_pass_through_unchanged() {
    let temps = vec![
        TempInfo { label: "cpu package".to_string(), temperature_bits: 42.5f32.to_bits() },
        TempInfo { label: "gpu".to_string(), temperature_bits: 61.25f32.to_bits() },
    ];
    let r = build_stats(0, 0, 0, Vec::new(), temps);
    assert_eq!(r.temperatures.len(), 2);
    assert_eq!(r.temperatures[0].label, "cpu package");
    assert_eq!(f32::from_bits(r.temperatures[0].temperature_bits), 42.5);
    assert_eq!(r.temperatures[1].label, "gpu");
    assert_eq!(f32::from_bits(r.temperatures[1].temperature_bits), 61.25);
}

#[test]
fn cpu_usage_passes_through_unchanged() {
    let bits = 12.25f32.to_bits();
    let r = build_stats(bits, 0, 0, Vec::new(), Vec::new());
    assert_eq!(r.cpu_usage_bits, bits);
    assert_eq!(f32::from_bits(r.cpu_usage_bits), 12.25);
}
