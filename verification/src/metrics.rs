//! The snapshot data model.
//!
//! Sizes and counters are kept in bytes, exactly as the operating
//! system reports them; conversions to gigabytes happen only where a
//! value is displayed. Percentages are whole percents on a 0..=100
//! scale (values above 100 can only arise from inconsistent
//! readings). Derived fields — used space, percentages, aggregate
//! sums — are pinned to their defining formulas by the
//! well-formedness predicates below.

use vstd::prelude::*;

verus! {

/// One gigabyte, in bytes.
pub const BYTES_PER_GB: u64 = 1024 * 1024 * 1024;

/// Disks smaller than this many bytes (64 GB) are left out of the
/// disk report; small pseudo-filesystems are noise for a desktop
/// monitor.
pub const MIN_DISK_BYTES: u64 = 64 * 1024 * 1024 * 1024;

/// One CPU snapshot: the global usage, the per-core usages (one entry
/// per core), the frequency of the first core in MHz (0 when no core
/// was reported) and the first core's display name.
#[derive(Debug, Clone)]
pub struct CpuMetrics {
    pub usage_percent: u64,
    pub core_count: usize,
    pub per_core_usage: Vec<u64>,
    pub frequency: u64,
    pub name: String,
}

/// One memory snapshot, all sizes in bytes.
#[derive(Debug, Clone)]
pub struct MemoryMetrics {
    pub total_memory: u64,
    pub used_memory: u64,
    pub available_memory: u64,
    pub usage_percent: u64,
    pub total_swap: u64,
    pub used_swap: u64,
}

/// One mounted disk, all sizes in bytes.
#[derive(Debug, Clone)]
pub struct DiskInfo {
    pub name: String,
    pub mount_point: String,
    pub total_space: u64,
    pub available_space: u64,
    pub used_space: u64,
    pub usage_percent: u64,
}

/// The disks that passed the size filter, with their aggregated
/// sizes.
#[derive(Debug, Clone)]
pub struct DiskMetrics {
    pub disks: Vec<DiskInfo>,
    pub total_space: u64,
    pub used_space: u64,
    pub available_space: u64,
}

/// Aggregate network counters since boot, summed over all interfaces.
#[derive(Debug, Clone)]
pub struct NetworkMetrics {
    pub total_bytes_received: u64,
    pub total_bytes_transmitted: u64,
}

/// One immutable snapshot of the whole machine, produced once per
/// sampling cycle and never mutated afterwards.
#[derive(Debug, Clone)]
pub struct SystemMetrics {
    pub cpu: CpuMetrics,
    pub memory: MemoryMetrics,
    pub disk: DiskMetrics,
    pub network: NetworkMetrics,
    pub uptime: u64,
    pub name: Option<String>,
    pub host_name: Option<String>,
    pub os_version: Option<String>,
}

/// `a + b`, stuck at `u64::MAX` instead of wrapping.
pub open spec fn sat_add_spec(a: int, b: int) -> int {
    if a + b > u64::MAX {
        u64::MAX as int
    } else {
        a + b
    }
}

/// `a - b`, stuck at zero instead of wrapping.
pub open spec fn sat_sub_spec(a: int, b: int) -> int {
    if a >= b {
        a - b
    } else {
        0
    }
}

/// `part` as a whole percentage of `whole`, truncated; zero when
/// `whole` is zero, so that an absent total never turns into a
/// division by zero.
pub open spec fn percent_spec(part: int, whole: int) -> int {
    if whole == 0 {
        0
    } else if part * 100 / whole > u64::MAX {
        u64::MAX as int
    } else {
        part * 100 / whole
    }
}

/// Sum of a sequence of sizes under saturating addition, folded from
/// the left.
pub open spec fn sat_sum(s: Seq<u64>) -> int
    decreases s.len(),
{
    if s.len() == 0 {
        0
    } else {
        sat_add_spec(sat_sum(s.drop_last()), s.last() as int)
    }
}

/// Extending a saturating sum by one element: summing the first `i`
/// values of `f` over `s` is summing the first `i - 1` and adding
/// `f(s[i - 1])`, saturating. This is the step of every summation
/// loop in the crate.
pub proof fn lemma_sat_sum_take_step<T>(s: Seq<T>, f: spec_fn(T) -> u64, i: int)
    requires
        0 < i <= s.len(),
    ensures
        sat_sum(s.take(i).map_values(f)) == sat_add_spec(
            sat_sum(s.take(i - 1).map_values(f)),
            f(s[i - 1]) as int,
        ),
{
    assert(s.take(i).map_values(f).drop_last() =~= s.take(i - 1).map_values(f));
    assert(s.take(i).map_values(f).len() == i);
    assert(s.take(i)[i - 1] == s[i - 1]);
    assert(s.take(i).map_values(f)[i - 1] == f(s.take(i)[i - 1]));
    assert(s.take(i).map_values(f).last() == f(s[i - 1]));
}

/// A CPU snapshot is well formed when it carries one usage entry per
/// core.
pub open spec fn cpu_wf(c: CpuMetrics) -> bool {
    c.per_core_usage@.len() == c.core_count
}

/// A memory snapshot is well formed when its usage percentage is
/// derived from its own byte counts.
pub open spec fn mem_wf(m: MemoryMetrics) -> bool {
    m.usage_percent == percent_spec(m.used_memory as int, m.total_memory as int)
}

/// A disk entry is well formed when its used size and usage
/// percentage are derived from its own byte counts and it passed the
/// size filter.
pub open spec fn disk_info_wf(d: DiskInfo) -> bool {
    &&& d.used_space == sat_sub_spec(d.total_space as int, d.available_space as int)
    &&& d.usage_percent == percent_spec(d.used_space as int, d.total_space as int)
    &&& d.total_space > MIN_DISK_BYTES
}

/// A disk report is well formed when every entry is, and the
/// aggregate sizes are the saturating sums over the entries.
pub open spec fn disk_wf(dm: DiskMetrics) -> bool {
    &&& forall|i: int| 0 <= i < dm.disks@.len() ==> disk_info_wf(#[trigger] dm.disks@[i])
    &&& dm.total_space == sat_sum(dm.disks@.map_values(|d: DiskInfo| d.total_space))
    &&& dm.used_space == sat_sum(dm.disks@.map_values(|d: DiskInfo| d.used_space))
    &&& dm.available_space == sat_sum(dm.disks@.map_values(|d: DiskInfo| d.available_space))
}

/// A whole snapshot is well formed when each of its parts is.
pub open spec fn metrics_wf(m: SystemMetrics) -> bool {
    &&& cpu_wf(m.cpu)
    &&& mem_wf(m.memory)
    &&& disk_wf(m.disk)
}

/// Saturating addition on `u64`, stated exactly.
pub fn sat_add(a: u64, b: u64) -> (r: u64)
    ensures
        r == sat_add_spec(a as int, b as int),
{
    if a <= u64::MAX - b {
        a + b
    } else {
        u64::MAX
    }
}

/// Saturating subtraction on `u64`, stated exactly.
pub fn sat_sub(a: u64, b: u64) -> (r: u64)
    ensures
        r == sat_sub_spec(a as int, b as int),
{
    if a >= b {
        a - b
    } else {
        0
    }
}

/// `part` as a whole percentage of `whole`.
///
/// Defined as zero when `whole` is zero: a reading with no total
/// reports zero usage rather than failing.
pub fn percent_of(part: u64, whole: u64) -> (r: u64)
    ensures
        r == percent_spec(part as int, whole as int),
        whole == 0 ==> r == 0,
{
    if whole == 0 {
        0
    } else {
        let wide: u128 = (part as u128) * 100 / (whole as u128);
        if wide > u64::MAX as u128 {
            u64::MAX
        } else {
            wide as u64
        }
    }
}

} // verus!
