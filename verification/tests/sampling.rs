use sysmon::metrics::percent_of;
use sysmon::metrics::sat_add;
use sysmon::metrics::sat_sub;
use sysmon::metrics::BYTES_PER_GB;
use sysmon::metrics::MIN_DISK_BYTES;
use sysmon::monitor::assemble_cpu_metrics;
use sysmon::monitor::assemble_memory_metrics;
use sysmon::monitor::build_disk_metrics;
use sysmon::monitor::sum_network_totals;
use sysmon::monitor::DiskReading;
use sysmon::monitor::SystemMonitor;

fn reading(name: &str, mount: &str, total: u64, available: u64) -> DiskReading {
    DiskReading {
        name: String::from(name),
        mount_point: String::from(mount),
        total_space: total,
        available_space: available,
    }
}

#[test]
fn percent_is_zero_when_the_total_is_zero() {
    // An absent total never divides: usage reads as zero.
    assert_eq!(percent_of(0, 0), 0);
    assert_eq!(percent_of(123456, 0), 0);
    assert_eq!(percent_of(u64::MAX, 0), 0);
}

#[test]
fn percent_truncates() {
    assert_eq!(percent_of(50, 200), 25);
    assert_eq!(percent_of(3, 4), 75);
    assert_eq!(percent_of(1, 3), 33);
    assert_eq!(percent_of(0, 7), 0);
    assert_eq!(percent_of(7, 7), 100);
}

#[test]
fn percent_above_the_total_exceeds_one_hundred() {
    assert_eq!(percent_of(5, 3), 166);
}

#[test]
fn saturating_arithmetic() {
    assert_eq!(sat_add(1, 2), 3);
    assert_eq!(sat_add(u64::MAX, 1), u64::MAX);
    assert_eq!(sat_add(u64::MAX - 4, 4), u64::MAX);
    assert_eq!(sat_sub(5, 3), 2);
    assert_eq!(sat_sub(3, 5), 0);
}

#[test]
fn network_totals_sum_per_interface_counters() {
    let totals = vec![(1u64, 2u64), (30, 40), (500, 600)];
    let m = sum_network_totals(&totals);
    assert_eq!(m.total_bytes_received, 531);
    assert_eq!(m.total_bytes_transmitted, 642);
}

#[test]
fn network_totals_of_no_interfaces_are_zero() {
    let m = sum_network_totals(&vec![]);
    assert_eq!(m.total_bytes_received, 0);
    assert_eq!(m.total_bytes_transmitted, 0);
}

#[test]
fn network_totals_saturate_instead_of_wrapping() {
    let totals = vec![(u64::MAX, 1u64), (5, 1)];
    let m = sum_network_totals(&totals);
    assert_eq!(m.total_bytes_received, u64::MAX);
    assert_eq!(m.total_bytes_transmitted, 2);
}

#[test]
fn disk_report_keeps_exactly_the_large_disks_in_order() {
    let readings = vec![
        reading("sda1", "/", 100 * BYTES_PER_GB, 40 * BYTES_PER_GB),
        reading("boot", "/boot", BYTES_PER_GB, BYTES_PER_GB / 2),
        reading("sdb1", "/data", 70 * BYTES_PER_GB, 70 * BYTES_PER_GB),
    ];
    let m = build_disk_metrics(&readings);

    assert_eq!(m.disks.len(), 2);
    assert_eq!(m.disks[0].name, "sda1");
    assert_eq!(m.disks[0].mount_point, "/");
    assert_eq!(m.disks[0].total_space, 100 * BYTES_PER_GB);
    assert_eq!(m.disks[0].available_space, 40 * BYTES_PER_GB);
    assert_eq!(m.disks[0].used_space, 60 * BYTES_PER_GB);
    assert_eq!(m.disks[0].usage_percent, 60);
    assert_eq!(m.disks[1].name, "sdb1");
    assert_eq!(m.disks[1].mount_point, "/data");
    assert_eq!(m.disks[1].used_space, 0);
    assert_eq!(m.disks[1].usage_percent, 0);

    assert_eq!(m.total_space, 170 * BYTES_PER_GB);
    assert_eq!(m.used_space, 60 * BYTES_PER_GB);
    assert_eq!(m.available_space, 110 * BYTES_PER_GB);
}

#[test]
fn disk_filter_is_strict() {
    // Exactly 64 GB does not pass; one byte more does.
    let readings = vec![
        reading("small", "/a", MIN_DISK_BYTES, 0),
        reading("large", "/b", MIN_DISK_BYTES + 1, 1),
    ];
    let m = build_disk_metrics(&readings);
    assert_eq!(m.disks.len(), 1);
    assert_eq!(m.disks[0].name, "large");
}

#[test]
fn disk_reading_with_available_above_total_degrades() {
    let readings = vec![reading("odd", "/odd", 65 * BYTES_PER_GB, 66 * BYTES_PER_GB)];
    let m = build_disk_metrics(&readings);
    assert_eq!(m.disks[0].used_space, 0);
    assert_eq!(m.disks[0].usage_percent, 0);
}

#[test]
fn memory_assembly_carries_every_reading() {
    let m = assemble_memory_metrics(16 * BYTES_PER_GB, 4 * BYTES_PER_GB, 12 * BYTES_PER_GB, 0, 0);
    assert_eq!(m.total_memory, 16 * BYTES_PER_GB);
    assert_eq!(m.used_memory, 4 * BYTES_PER_GB);
    assert_eq!(m.available_memory, 12 * BYTES_PER_GB);
    assert_eq!(m.total_swap, 0);
    assert_eq!(m.used_swap, 0);
    assert_eq!(m.usage_percent, 25);
}

#[test]
fn memory_assembly_with_zero_total_reports_zero_usage() {
    let m = assemble_memory_metrics(0, 0, 0, 0, 0);
    assert_eq!(m.usage_percent, 0);
}

#[test]
fn cpu_assembly_carries_the_readings() {
    let m = assemble_cpu_metrics(37, vec![10, 64], Some(2400), Some(String::from("cpu0")));
    assert_eq!(m.usage_percent, 37);
    assert_eq!(m.core_count, 2);
    assert_eq!(m.per_core_usage, vec![10, 64]);
    assert_eq!(m.frequency, 2400);
    assert_eq!(m.name, "cpu0");
}

#[test]
fn cpu_assembly_without_cores_degrades_to_placeholder() {
    let m = assemble_cpu_metrics(0, vec![], None, None);
    assert_eq!(m.core_count, 0);
    assert_eq!(m.per_core_usage, Vec::<u64>::new());
    assert_eq!(m.frequency, 0);
    assert_eq!(m.name, "CPU não especificado");
}

#[test]
fn live_snapshot_is_well_formed() {
    let mut monitor = SystemMonitor::new();
    monitor.refresh();
    let m = monitor.get_all_metrics();

    // One usage entry per core.
    assert_eq!(m.cpu.per_core_usage.len(), m.cpu.core_count);

    // The memory percentage is derived from the byte counts.
    let expected = if m.memory.total_memory == 0 {
        0
    } else {
        ((m.memory.used_memory as u128) * 100 / (m.memory.total_memory as u128)) as u64
    };
    assert_eq!(m.memory.usage_percent, expected);

    // Every reported disk passed the size filter, with derived fields.
    let mut total = 0u64;
    let mut used = 0u64;
    let mut avail = 0u64;
    for d in &m.disk.disks {
        assert!(d.total_space > MIN_DISK_BYTES);
        assert_eq!(d.used_space, d.total_space.saturating_sub(d.available_space));
        let expected_pct = if d.total_space == 0 {
            0
        } else {
            ((d.used_space as u128) * 100 / (d.total_space as u128)) as u64
        };
        assert_eq!(d.usage_percent, expected_pct);
        total = total.saturating_add(d.total_space);
        used = used.saturating_add(d.used_space);
        avail = avail.saturating_add(d.available_space);
    }
    assert_eq!(m.disk.total_space, total);
    assert_eq!(m.disk.used_space, used);
    assert_eq!(m.disk.available_space, avail);
}

#[test]
fn min_disk_filter_is_sixty_four_gigabytes() {
    assert_eq!(MIN_DISK_BYTES, 64 * BYTES_PER_GB);
}
