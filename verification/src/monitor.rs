//! The sampler: owns the operating-system metrics source (the
//! `sysinfo` crate) and extracts one well-formed snapshot per cycle.
//!
//! Every reading crosses into verified code as a plain integer or
//! string through a small trusted wrapper; everything derived from
//! the readings — rounding, percentages, the size filter, the
//! aggregation — is verified. A missing reading degrades to a zero,
//! an empty list or a placeholder name; no read error is ever
//! surfaced.

use vstd::prelude::*;
use vstd::slice::slice_index_get;
use vstd::string::*;

use crate::metrics::CpuMetrics;
use crate::metrics::DiskInfo;
use crate::metrics::DiskMetrics;
use crate::metrics::MemoryMetrics;
use crate::metrics::NetworkMetrics;
use crate::metrics::SystemMetrics;
use crate::metrics::MIN_DISK_BYTES;
use crate::metrics::cpu_wf;
use crate::metrics::disk_info_wf;
use crate::metrics::disk_wf;
use crate::metrics::lemma_sat_sum_take_step;
use crate::metrics::mem_wf;
use crate::metrics::metrics_wf;
use crate::metrics::percent_of;
use crate::metrics::percent_spec;
use crate::metrics::sat_add;
use crate::metrics::sat_sub;
use crate::metrics::sat_sub_spec;
use crate::metrics::sat_sum;

verus! {

#[verifier::external_type_specification]
#[verifier::external_body]
pub struct ExSystem(sysinfo::System);

#[verifier::external_type_specification]
#[verifier::external_body]
pub struct ExCpu(sysinfo::Cpu);

#[verifier::external_type_specification]
#[verifier::external_body]
pub struct ExDisks(sysinfo::Disks);

#[verifier::external_type_specification]
#[verifier::external_body]
pub struct ExDisk(sysinfo::Disk);

#[verifier::external_type_specification]
#[verifier::external_body]
pub struct ExNetworks(sysinfo::Networks);

#[verifier::external_type_specification]
#[verifier::external_body]
pub struct ExNetworkData(sysinfo::NetworkData);

/// Relies on sysinfo::System::new_all: a metrics source with every
/// category loaded once.
#[verifier::external_body]
fn system_new_all() -> sysinfo::System {
    sysinfo::System::new_all()
}

/// Relies on sysinfo::System::refresh_all: re-reads every metric
/// category from the operating system.
#[verifier::external_body]
fn system_refresh_all(s: &mut sysinfo::System) {
    s.refresh_all();
}

/// Relies on sysinfo::System::global_cpu_usage: the global CPU usage
/// percentage accumulated since the previous refresh, rounded here to
/// a whole percent.
#[verifier::external_body]
fn system_global_cpu_usage_rounded(s: &sysinfo::System) -> u64 {
    s.global_cpu_usage().round() as u64
}

/// Relies on sysinfo::System::cpus: the list of CPU cores.
#[verifier::external_body]
fn system_cpus(s: &sysinfo::System) -> &[sysinfo::Cpu] {
    s.cpus()
}

/// Relies on sysinfo::Cpu::cpu_usage: this core's usage percentage
/// accumulated since the previous refresh, rounded here to a whole
/// percent.
#[verifier::external_body]
fn cpu_usage_rounded(c: &sysinfo::Cpu) -> u64 {
    c.cpu_usage().round() as u64
}

/// Relies on sysinfo::Cpu::frequency: this core's frequency in MHz.
#[verifier::external_body]
fn cpu_frequency(c: &sysinfo::Cpu) -> u64 {
    c.frequency()
}

/// Relies on sysinfo::Cpu::name: this core's display name.
#[verifier::external_body]
fn cpu_name(c: &sysinfo::Cpu) -> String {
    c.name().to_owned()
}

/// Relies on sysinfo::System::total_memory: the RAM size in bytes.
#[verifier::external_body]
fn system_total_memory(s: &sysinfo::System) -> u64 {
    s.total_memory()
}

/// Relies on sysinfo::System::used_memory: the used RAM in bytes.
#[verifier::external_body]
fn system_used_memory(s: &sysinfo::System) -> u64 {
    s.used_memory()
}

/// Relies on sysinfo::System::available_memory: the reusable RAM in
/// bytes.
#[verifier::external_body]
fn system_available_memory(s: &sysinfo::System) -> u64 {
    s.available_memory()
}

/// Relies on sysinfo::System::total_swap: the swap size in bytes
/// (zero when no swap is configured).
#[verifier::external_body]
fn system_total_swap(s: &sysinfo::System) -> u64 {
    s.total_swap()
}

/// Relies on sysinfo::System::used_swap: the used swap in bytes.
#[verifier::external_body]
fn system_used_swap(s: &sysinfo::System) -> u64 {
    s.used_swap()
}

/// Relies on sysinfo::System::uptime: seconds since boot.
#[verifier::external_body]
fn system_uptime() -> u64 {
    sysinfo::System::uptime()
}

/// Relies on sysinfo::System::name: the operating system's name, when
/// known.
#[verifier::external_body]
fn system_name() -> Option<String> {
    sysinfo::System::name()
}

/// Relies on sysinfo::System::host_name: the hostname, when known.
#[verifier::external_body]
fn system_host_name() -> Option<String> {
    sysinfo::System::host_name()
}

/// Relies on sysinfo::System::os_version: the operating system's
/// version, when known.
#[verifier::external_body]
fn system_os_version() -> Option<String> {
    sysinfo::System::os_version()
}

/// Relies on sysinfo::Disks::new_with_refreshed_list: the list of
/// mounted disks, freshly read.
#[verifier::external_body]
fn disks_refreshed() -> sysinfo::Disks {
    sysinfo::Disks::new_with_refreshed_list()
}

/// Relies on sysinfo::Disks::list: the disks as a slice.
#[verifier::external_body]
fn disks_list(d: &sysinfo::Disks) -> &[sysinfo::Disk] {
    d.list()
}

/// Relies on sysinfo::Disk::total_space: this disk's size in bytes.
#[verifier::external_body]
fn disk_total_space(d: &sysinfo::Disk) -> u64 {
    d.total_space()
}

/// Relies on sysinfo::Disk::available_space: this disk's free space
/// in bytes.
#[verifier::external_body]
fn disk_available_space(d: &sysinfo::Disk) -> u64 {
    d.available_space()
}

/// Relies on sysinfo::Disk::name: this disk's name, with any
/// non-Unicode bytes replaced.
#[verifier::external_body]
fn disk_name(d: &sysinfo::Disk) -> String {
    d.name().to_string_lossy().to_string()
}

/// Relies on sysinfo::Disk::mount_point: this disk's mount point,
/// with any non-Unicode bytes replaced.
#[verifier::external_body]
fn disk_mount_point(d: &sysinfo::Disk) -> String {
    d.mount_point().to_string_lossy().to_string()
}

/// Relies on sysinfo::Networks::new_with_refreshed_list: the list of
/// network interfaces, freshly read.
#[verifier::external_body]
fn networks_refreshed() -> sysinfo::Networks {
    sysinfo::Networks::new_with_refreshed_list()
}

/// Relies on sysinfo::Networks::list, sysinfo::NetworkData::
/// total_received and total_transmitted: each interface's two byte
/// counters since boot, handed out as plain pairs (the interfaces
/// come in no particular order).
#[verifier::external_body]
fn network_totals(n: &sysinfo::Networks) -> Vec<(u64, u64)> {
    n.list().iter().map(|(_, data)| (data.total_received(), data.total_transmitted())).collect()
}

/// The sampler: owns one metrics source, refreshed before each
/// extraction.
pub struct SystemMonitor {
    system: sysinfo::System,
}

/// One raw disk reading, exactly as the metrics source reported it.
#[derive(Debug, Clone)]
pub struct DiskReading {
    pub name: String,
    pub mount_point: String,
    pub total_space: u64,
    pub available_space: u64,
}

/// The disk entry derived from one reading: the reading's name,
/// mount point and byte counts, with the used space and usage
/// percentage computed from them.
pub open spec fn disk_info_of(d: DiskReading) -> DiskInfo {
    let used = sat_sub_spec(d.total_space as int, d.available_space as int);
    DiskInfo {
        name: d.name,
        mount_point: d.mount_point,
        total_space: d.total_space,
        available_space: d.available_space,
        used_space: used as u64,
        usage_percent: percent_spec(used, d.total_space as int) as u64,
    }
}

/// The disk entries kept from a sequence of readings: exactly those
/// above the size filter, in reading order, each derived by
/// [`disk_info_of`].
pub open spec fn filtered_disk_infos(s: Seq<DiskReading>) -> Seq<DiskInfo>
    decreases s.len(),
{
    if s.len() == 0 {
        Seq::empty()
    } else {
        let rest = filtered_disk_infos(s.drop_last());
        if s.last().total_space > MIN_DISK_BYTES {
            rest.push(disk_info_of(s.last()))
        } else {
            rest
        }
    }
}

/// Every entry kept from a sequence of readings is well formed.
proof fn lemma_filtered_disk_infos_wf(s: Seq<DiskReading>)
    ensures
        forall|j: int|
            0 <= j < filtered_disk_infos(s).len() ==> disk_info_wf(
                #[trigger] filtered_disk_infos(s)[j],
            ),
    decreases s.len(),
{
    if s.len() > 0 {
        lemma_filtered_disk_infos_wf(s.drop_last());
        let rest = filtered_disk_infos(s.drop_last());
        if s.last().total_space > MIN_DISK_BYTES {
            let info = disk_info_of(s.last());
            let used = sat_sub_spec(s.last().total_space as int, s.last().available_space as int);
            assert(0 <= used <= u64::MAX);
            assert(0 <= percent_spec(used, s.last().total_space as int) <= u64::MAX);
            assert(disk_info_wf(info));
            assert forall|j: int| 0 <= j < filtered_disk_infos(s).len() implies disk_info_wf(
                #[trigger] filtered_disk_infos(s)[j],
            ) by {
                if j < rest.len() {
                    assert(filtered_disk_infos(s)[j] == rest[j]);
                } else {
                    assert(filtered_disk_infos(s)[j] == info);
                }
            }
        }
    }
}

/// Assembles the CPU snapshot from the readings: the rounded global
/// usage and the per-core usages exactly as handed in, and the first
/// core's frequency and name, degrading to zero and a fixed
/// placeholder when no first core was reported.
pub fn assemble_cpu_metrics(
    usage_percent: u64,
    per_core_usage: Vec<u64>,
    first_frequency: Option<u64>,
    first_name: Option<String>,
) -> (r: CpuMetrics)
    ensures
        r.usage_percent == usage_percent,
        r.core_count == per_core_usage@.len(),
        r.per_core_usage == per_core_usage,
        first_frequency matches Some(f) ==> r.frequency == f,
        first_frequency is None ==> r.frequency == 0,
        first_name matches Some(nm) ==> r.name == nm,
        first_name is None ==> r.name@ == "CPU não especificado"@,
{
    let frequency: u64 = match first_frequency {
        Some(f) => f,
        None => 0,
    };
    let name: String = match first_name {
        Some(nm) => nm,
        None => String::from_str("CPU não especificado"),
    };
    let core_count: usize = per_core_usage.len();
    CpuMetrics { usage_percent, core_count, per_core_usage, frequency, name }
}

/// Assembles the memory snapshot from the readings, each byte field
/// exactly as handed in, with the usage percentage derived from the
/// memory counts.
pub fn assemble_memory_metrics(
    total_memory: u64,
    used_memory: u64,
    available_memory: u64,
    total_swap: u64,
    used_swap: u64,
) -> (r: MemoryMetrics)
    ensures
        r.total_memory == total_memory,
        r.used_memory == used_memory,
        r.available_memory == available_memory,
        r.total_swap == total_swap,
        r.used_swap == used_swap,
        r.usage_percent == percent_spec(used_memory as int, total_memory as int),
{
    let usage_percent = percent_of(used_memory, total_memory);
    MemoryMetrics {
        total_memory,
        used_memory,
        available_memory,
        usage_percent,
        total_swap,
        used_swap,
    }
}

/// Builds the disk report from raw readings: keeps exactly the
/// readings above the size filter, in reading order, derives each
/// entry's used space and usage percentage, and aggregates the sizes
/// with saturation.
pub fn build_disk_metrics(readings: &Vec<DiskReading>) -> (r: DiskMetrics)
    ensures
        r.disks@ == filtered_disk_infos(readings@),
        disk_wf(r),
{
    let mut disks_info: Vec<DiskInfo> = Vec::new();
    let mut i: usize = 0;
    proof {
        assert(readings@.take(0) =~= Seq::<DiskReading>::empty());
    }
    while i < readings.len()
        invariant
            i <= readings@.len(),
            disks_info@ == filtered_disk_infos(readings@.take(i as int)),
        decreases readings@.len() - i,
    {
        let total_space = readings[i].total_space;
        if total_space > MIN_DISK_BYTES {
            let available_space = readings[i].available_space;
            let used_space = sat_sub(total_space, available_space);
            let usage_percent = percent_of(used_space, total_space);
            let name = readings[i].name.clone();
            let mount_point = readings[i].mount_point.clone();
            disks_info.push(
                DiskInfo {
                    name,
                    mount_point,
                    total_space,
                    available_space,
                    used_space,
                    usage_percent,
                },
            );
        }
        i = i + 1;
        proof {
            assert(readings@.take(i as int).drop_last() =~= readings@.take(i as int - 1));
            assert(readings@.take(i as int).last() == readings@[i as int - 1]);
        }
    }
    proof {
        assert(readings@.take(readings@.len() as int) =~= readings@);
        lemma_filtered_disk_infos_wf(readings@);
    }
    let sums = disk_space_sums(&disks_info);
    DiskMetrics {
        disks: disks_info,
        total_space: sums.0,
        used_space: sums.1,
        available_space: sums.2,
    }
}

/// Sums each interface's receive and transmit counters, saturating
/// instead of wrapping.
pub fn sum_network_totals(totals: &Vec<(u64, u64)>) -> (r: NetworkMetrics)
    ensures
        r.total_bytes_received == sat_sum(totals@.map_values(|p: (u64, u64)| p.0)),
        r.total_bytes_transmitted == sat_sum(totals@.map_values(|p: (u64, u64)| p.1)),
{
    let ghost rx_of = |p: (u64, u64)| p.0;
    let ghost tx_of = |p: (u64, u64)| p.1;
    let mut rx: u64 = 0;
    let mut tx: u64 = 0;
    let mut i: usize = 0;
    proof {
        assert(totals@.take(0).map_values(rx_of) =~= Seq::<u64>::empty());
        assert(totals@.take(0).map_values(tx_of) =~= Seq::<u64>::empty());
    }
    while i < totals.len()
        invariant
            i <= totals@.len(),
            rx_of == (|p: (u64, u64)| p.0),
            tx_of == (|p: (u64, u64)| p.1),
            rx == sat_sum(totals@.take(i as int).map_values(rx_of)),
            tx == sat_sum(totals@.take(i as int).map_values(tx_of)),
        decreases totals@.len() - i,
    {
        let pair = totals[i];
        rx = sat_add(rx, pair.0);
        tx = sat_add(tx, pair.1);
        i = i + 1;
        proof {
            lemma_sat_sum_take_step(totals@, rx_of, i as int);
            lemma_sat_sum_take_step(totals@, tx_of, i as int);
        }
    }
    proof {
        assert(totals@.take(totals@.len() as int) =~= totals@);
    }
    NetworkMetrics { total_bytes_received: rx, total_bytes_transmitted: tx }
}

/// Sums the aggregate sizes over a list of disk entries, saturating
/// instead of wrapping: total, used and available space, in that
/// order.
fn disk_space_sums(disks: &Vec<DiskInfo>) -> (r: (u64, u64, u64))
    ensures
        r.0 == sat_sum(disks@.map_values(|d: DiskInfo| d.total_space)),
        r.1 == sat_sum(disks@.map_values(|d: DiskInfo| d.used_space)),
        r.2 == sat_sum(disks@.map_values(|d: DiskInfo| d.available_space)),
{
    let ghost total_of = |d: DiskInfo| d.total_space;
    let ghost used_of = |d: DiskInfo| d.used_space;
    let ghost avail_of = |d: DiskInfo| d.available_space;
    let mut total: u64 = 0;
    let mut used: u64 = 0;
    let mut avail: u64 = 0;
    let mut i: usize = 0;
    proof {
        assert(disks@.take(0).map_values(total_of) =~= Seq::<u64>::empty());
        assert(disks@.take(0).map_values(used_of) =~= Seq::<u64>::empty());
        assert(disks@.take(0).map_values(avail_of) =~= Seq::<u64>::empty());
    }
    while i < disks.len()
        invariant
            i <= disks@.len(),
            total_of == (|d: DiskInfo| d.total_space),
            used_of == (|d: DiskInfo| d.used_space),
            avail_of == (|d: DiskInfo| d.available_space),
            total == sat_sum(disks@.take(i as int).map_values(total_of)),
            used == sat_sum(disks@.take(i as int).map_values(used_of)),
            avail == sat_sum(disks@.take(i as int).map_values(avail_of)),
        decreases disks@.len() - i,
    {
        total = sat_add(total, disks[i].total_space);
        used = sat_add(used, disks[i].used_space);
        avail = sat_add(avail, disks[i].available_space);
        i = i + 1;
        proof {
            lemma_sat_sum_take_step(disks@, total_of, i as int);
            lemma_sat_sum_take_step(disks@, used_of, i as int);
            lemma_sat_sum_take_step(disks@, avail_of, i as int);
        }
    }
    proof {
        assert(disks@.take(disks@.len() as int) =~= disks@);
    }
    (total, used, avail)
}

impl SystemMonitor {
    /// A sampler with a freshly loaded metrics source.
    pub fn new() -> Self {
        let mut system = system_new_all();
        system_refresh_all(&mut system);
        SystemMonitor { system }
    }

    /// Re-reads every metric category. Accurate CPU usage needs two
    /// refreshes with a settling delay in between; the caller owns
    /// that delay (see the sampler protocol in the pipeline module).
    pub fn refresh(&mut self) {
        system_refresh_all(&mut self.system);
    }

    /// Extracts the CPU snapshot: one usage entry per core, and the
    /// first core's frequency and name, degrading to zero and a
    /// placeholder when no core was reported.
    pub fn get_cpu_metrics(&self) -> (r: CpuMetrics)
        ensures
            cpu_wf(r),
            r.core_count == 0 ==> r.frequency == 0,
            r.core_count == 0 ==> r.name@ == "CPU não especificado"@,
    {
        let cpus = system_cpus(&self.system);
        let total_usage = system_global_cpu_usage_rounded(&self.system);
        let n = cpus.len();
        let mut per_core_usage: Vec<u64> = Vec::new();
        let mut i: usize = 0;
        while i < n
            invariant
                i <= n,
                n == cpus@.len(),
                per_core_usage@.len() == i,
            decreases n - i,
        {
            per_core_usage.push(cpu_usage_rounded(slice_index_get(cpus, i)));
            i = i + 1;
        }
        let first_frequency: Option<u64> = if n > 0 {
            Some(cpu_frequency(slice_index_get(cpus, 0)))
        } else {
            None
        };
        let first_name: Option<String> = if n > 0 {
            Some(cpu_name(slice_index_get(cpus, 0)))
        } else {
            None
        };
        assemble_cpu_metrics(total_usage, per_core_usage, first_frequency, first_name)
    }

    /// Extracts the memory snapshot; the usage percentage is derived
    /// from the byte counts and is zero whenever the reported total
    /// is zero, so a failed read never divides by zero.
    pub fn get_memory_metrics(&self) -> (r: MemoryMetrics)
        ensures
            mem_wf(r),
            r.total_memory == 0 ==> r.usage_percent == 0,
    {
        let total_memory = system_total_memory(&self.system);
        let used_memory = system_used_memory(&self.system);
        let available_memory = system_available_memory(&self.system);
        let total_swap = system_total_swap(&self.system);
        let used_swap = system_used_swap(&self.system);
        assemble_memory_metrics(total_memory, used_memory, available_memory, total_swap, used_swap)
    }

    /// Extracts the disk snapshot: every disk above the size filter,
    /// each with its derived used space and usage percentage, plus
    /// the saturating aggregate sizes.
    pub fn get_disk_metrics(&self) -> (r: DiskMetrics)
        ensures
            disk_wf(r),
    {
        let disks = disks_refreshed();
        let list = disks_list(&disks);
        let n = list.len();
        let mut readings: Vec<DiskReading> = Vec::new();
        let mut i: usize = 0;
        while i < n
            invariant
                i <= n,
                n == list@.len(),
            decreases n - i,
        {
            let d = slice_index_get(list, i);
            readings.push(
                DiskReading {
                    name: disk_name(d),
                    mount_point: disk_mount_point(d),
                    total_space: disk_total_space(d),
                    available_space: disk_available_space(d),
                },
            );
            i = i + 1;
        }
        build_disk_metrics(&readings)
    }

    /// Extracts the network snapshot: the interfaces' counters summed
    /// with saturation, whatever interfaces the refresh reported.
    pub fn get_network_metrics(&self) -> NetworkMetrics {
        let networks = networks_refreshed();
        let totals = network_totals(&networks);
        sum_network_totals(&totals)
    }

    /// Assembles one complete, well-formed snapshot from the current
    /// state of the metrics source.
    pub fn get_all_metrics(&self) -> (r: SystemMetrics)
        ensures
            metrics_wf(r),
    {
        SystemMetrics {
            cpu: self.get_cpu_metrics(),
            memory: self.get_memory_metrics(),
            disk: self.get_disk_metrics(),
            network: self.get_network_metrics(),
            uptime: system_uptime(),
            name: system_name(),
            host_name: system_host_name(),
            os_version: system_os_version(),
        }
    }
}

} // verus!
