use sysstats::snapshot::get_stats;
use sysstats::stats::GbValue;

const GB: u64 = 1024 * 1024 * 1024;

fn gb_as_bytes(v: &GbValue) -> u128 {
    v.whole as u128 * GB as u128 + v.frac as u128
}

#[test]
fn real_host_ram_used_at_most_total() {
    let stats = get_stats();
    assert!(stats.ram_used <= stats.ram_total);
}

#[test]
fn real_host_disk_entries_well_formed() {
    let stats = get_stats();
    for d in &stats.disks {
        assert!(d.total_space.frac < GB);
        assert!(d.available_space.frac < GB);
        assert!(gb_as_bytes(&d.available_space) <= gb_as_bytes(&d.total_space));
    }
}

#[test]
fn concurrent_snapshots_all_complete() {
    let rt = tokio::runtime::Builder::new_multi_thread()
        .worker_threads(4)
        .build()
        .unwrap();
    let mut handles = Vec::new();
    for _ in 0..12 {
        handles.push(rt.spawn_blocking(get_stats));
    }
    for h in handles {
        let stats = rt.block_on(h).unwrap();
        assert!(stats.ram_used <= stats.ram_total);
    }
}
