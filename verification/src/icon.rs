//! The dirty-checking icon cache.
//!
//! The UI polls far more often than snapshots arrive, so the tray
//! icon is regenerated only when the displayed values — the CPU
//! percentage and the used memory in whole gigabytes — actually
//! changed. Rendered artifacts alternate between two fixed paths
//! (double buffering), so a reader is never handed the path that is
//! being written at that moment.
//!
//! The cache itself only decides and records; the caller performs the
//! file write for a [`IconAction::Render`] decision and reports a
//! successful write back through [`IconCache::note_rendered`]. A
//! failed write is simply not reported, which leaves the cache on its
//! previous baseline, exactly as if the refresh cycle had not
//! happened.

use vstd::prelude::*;
use vstd::string::*;

use crate::metrics::BYTES_PER_GB;
use crate::metrics::SystemMetrics;
use crate::text::dec_str;
use crate::text::one_decimal;
use crate::text::one_decimal_str;
use crate::text::u64_to_dec;

verus! {

/// One of the two artifact slots used for double buffering.
#[derive(Clone, Copy, Debug, PartialEq, Eq, Structural)]
pub enum IconSlot {
    SlotA,
    SlotB,
}

/// The fixed filesystem path of a slot's artifact.
pub open spec fn slot_path_spec(slot: IconSlot) -> Seq<char> {
    match slot {
        IconSlot::SlotA => "/tmp/monitor_text_icon_a.svg"@,
        IconSlot::SlotB => "/tmp/monitor_text_icon_b.svg"@,
    }
}

/// The fixed filesystem path of a slot's artifact.
pub fn slot_path(slot: IconSlot) -> (r: String)
    ensures
        r@ == slot_path_spec(slot),
{
    match slot {
        IconSlot::SlotA => String::from_str("/tmp/monitor_text_icon_a.svg"),
        IconSlot::SlotB => String::from_str("/tmp/monitor_text_icon_b.svg"),
    }
}

/// The two slots write to different paths, so alternating between
/// them never reuses the path of the immediately preceding write.
pub proof fn lemma_slot_paths_differ()
    ensures
        slot_path_spec(IconSlot::SlotA) != slot_path_spec(IconSlot::SlotB),
{
    reveal_strlit("/tmp/monitor_text_icon_a.svg");
    reveal_strlit("/tmp/monitor_text_icon_b.svg");
    assert(slot_path_spec(IconSlot::SlotA)[23] == 'a');
    assert(slot_path_spec(IconSlot::SlotB)[23] == 'b');
}

/// The CPU value an icon displays: the (already rounded) global usage
/// percentage.
pub open spec fn cpu_rounded_spec(m: SystemMetrics) -> u64 {
    m.cpu.usage_percent
}

/// The RAM value an icon is keyed on: used memory in whole gigabytes.
pub open spec fn ram_rounded_spec(m: SystemMetrics) -> u64 {
    (m.memory.used_memory as int / BYTES_PER_GB as int) as u64
}

/// The CPU value an icon displays.
pub fn cpu_rounded(stats: &SystemMetrics) -> (r: u64)
    ensures
        r == cpu_rounded_spec(*stats),
{
    stats.cpu.usage_percent
}

/// The RAM value an icon is keyed on.
pub fn ram_rounded(stats: &SystemMetrics) -> (r: u64)
    ensures
        r == ram_rounded_spec(*stats),
{
    stats.memory.used_memory / BYTES_PER_GB
}

/// The fill color for a usage value: white below 50, yellow below 80,
/// red at and above 80.
pub open spec fn threshold_color_spec(value: int) -> Seq<char> {
    if value < 50 {
        "#ffffff"@
    } else if value < 80 {
        "#ffff00"@
    } else {
        "#ff0000"@
    }
}

/// The fill color for a usage value.
fn threshold_color(value: u64) -> (r: &'static str)
    ensures
        r@ == threshold_color_spec(value as int),
{
    if value < 50 {
        "#ffffff"
    } else if value < 80 {
        "#ffff00"
    } else {
        "#ff0000"
    }
}

/// The complete SVG artifact for a snapshot: a fixed 120 by 32 image
/// with the CPU percentage and the used memory in gigabytes (one
/// decimal place), each colored by its usage level.
pub open spec fn icon_svg_spec(m: SystemMetrics) -> Seq<char> {
    "<?xml version=\"1.0\" encoding=\"UTF-8\"?><svg width=\"120\" height=\"32\" xmlns=\"http://www.w3.org/2000/svg\"><rect width=\"100%\" height=\"100%\" fill=\"transparent\" /><text x=\"5\" y=\"13\" font-family=\"monospace\" font-size=\"12px\" fill=\"#ffffff\" font-weight=\"bold\" text-anchor=\"start\" dominant-baseline=\"middle\">CPU</text><text x=\"5\" y=\"27\" font-family=\"monospace\" font-size=\"14px\" fill=\""@
        + threshold_color_spec(m.cpu.usage_percent as int)
        + "\" font-weight=\"bold\" text-anchor=\"start\" dominant-baseline=\"middle\">"@
        + dec_str(m.cpu.usage_percent as int)
        + "%</text><text x=\"54\" y=\"13\" font-family=\"monospace\" font-size=\"12px\" fill=\"#ffffff\" font-weight=\"bold\" text-anchor=\"start\" dominant-baseline=\"middle\">RAM</text><text x=\"54\" y=\"27\" font-family=\"monospace\" font-size=\"14px\" fill=\""@
        + threshold_color_spec(m.memory.usage_percent as int)
        + "\" font-weight=\"bold\" text-anchor=\"start\" dominant-baseline=\"middle\">"@
        + one_decimal_str(m.memory.used_memory as int, BYTES_PER_GB as int)
        + "gb</text></svg>"@
}

/// Renders the SVG artifact for a snapshot.
pub fn render_icon_svg(stats: &SystemMetrics) -> (r: String)
    ensures
        r@ == icon_svg_spec(*stats),
{
    let mut s = String::from_str(
        "<?xml version=\"1.0\" encoding=\"UTF-8\"?><svg width=\"120\" height=\"32\" xmlns=\"http://www.w3.org/2000/svg\"><rect width=\"100%\" height=\"100%\" fill=\"transparent\" /><text x=\"5\" y=\"13\" font-family=\"monospace\" font-size=\"12px\" fill=\"#ffffff\" font-weight=\"bold\" text-anchor=\"start\" dominant-baseline=\"middle\">CPU</text><text x=\"5\" y=\"27\" font-family=\"monospace\" font-size=\"14px\" fill=\"",
    );
    s.append(threshold_color(stats.cpu.usage_percent));
    s.append("\" font-weight=\"bold\" text-anchor=\"start\" dominant-baseline=\"middle\">");
    s.append(u64_to_dec(stats.cpu.usage_percent).as_str());
    s.append(
        "%</text><text x=\"54\" y=\"13\" font-family=\"monospace\" font-size=\"12px\" fill=\"#ffffff\" font-weight=\"bold\" text-anchor=\"start\" dominant-baseline=\"middle\">RAM</text><text x=\"54\" y=\"27\" font-family=\"monospace\" font-size=\"14px\" fill=\"",
    );
    s.append(threshold_color(stats.memory.usage_percent));
    s.append("\" font-weight=\"bold\" text-anchor=\"start\" dominant-baseline=\"middle\">");
    s.append(one_decimal(stats.memory.used_memory, BYTES_PER_GB).as_str());
    s.append("gb</text></svg>");
    proof {
        assert(s@ =~= icon_svg_spec(*stats));
    }
    s
}

/// What a consumer must do for the current snapshot: reuse the cached
/// artifact, or write `content` to `path` and then report the write
/// through [`IconCache::note_rendered`].
pub enum IconAction {
    Cached { path: String },
    Render { slot: IconSlot, path: String, content: String },
}

/// The dirty-checking cache: the rounded values of the last rendered
/// snapshot and the slot holding that artifact, all unset until the
/// first render.
pub struct IconCache {
    pub last_cpu: Option<u64>,
    pub last_ram: Option<u64>,
    pub current_slot: Option<IconSlot>,
}

/// A snapshot needs a fresh artifact when either rounded value
/// differs from the last rendered one, or nothing was rendered yet.
pub open spec fn needs_update_spec(c: IconCache, cpu_r: u64, ram_r: u64) -> bool {
    ||| c.last_cpu != Some(cpu_r)
    ||| c.last_ram != Some(ram_r)
    ||| c.current_slot is None
}

/// The slot the next render writes to: the opposite of the current
/// one, starting with slot A.
pub open spec fn next_slot_spec(c: IconCache) -> IconSlot {
    match c.current_slot {
        Option::None => IconSlot::SlotA,
        Option::Some(IconSlot::SlotA) => IconSlot::SlotB,
        Option::Some(IconSlot::SlotB) => IconSlot::SlotA,
    }
}

/// The cache state after a successful render for rounded values
/// `cpu_r` and `ram_r`.
pub open spec fn after_render_spec(c: IconCache, cpu_r: u64, ram_r: u64) -> IconCache {
    IconCache {
        last_cpu: Some(cpu_r),
        last_ram: Some(ram_r),
        current_slot: Some(next_slot_spec(c)),
    }
}

impl IconCache {
    /// A fresh cache: no baseline, no artifact.
    pub fn new() -> (c: Self)
        ensures
            c.last_cpu is None,
            c.last_ram is None,
            c.current_slot is None,
    {
        IconCache { last_cpu: None, last_ram: None, current_slot: None }
    }

    /// The slot the next render writes to.
    pub fn next_slot(&self) -> (r: IconSlot)
        ensures
            r == next_slot_spec(*self),
    {
        match self.current_slot {
            None => IconSlot::SlotA,
            Some(IconSlot::SlotA) => IconSlot::SlotB,
            Some(IconSlot::SlotB) => IconSlot::SlotA,
        }
    }

    /// Decides how to obtain the icon for `stats`: the cached path
    /// when the rounded values are unchanged and an artifact exists,
    /// otherwise a render order for the opposite slot, carrying the
    /// path to write and the complete artifact content.
    pub fn get_icon_path(&self, stats: &SystemMetrics) -> (r: IconAction)
        ensures
            ({
                let cpu_r = cpu_rounded_spec(*stats);
                let ram_r = ram_rounded_spec(*stats);
                if needs_update_spec(*self, cpu_r, ram_r) {
                    r matches IconAction::Render { slot, path, content }
                        && slot == next_slot_spec(*self)
                        && path@ == slot_path_spec(next_slot_spec(*self))
                        && content@ == icon_svg_spec(*stats)
                } else {
                    r matches IconAction::Cached { path }
                        && self.current_slot matches Some(cs)
                        && path@ == slot_path_spec(cs)
                }
            }),
    {
        let cpu_r = cpu_rounded(stats);
        let ram_r = ram_rounded(stats);
        let cpu_same = match self.last_cpu {
            Some(v) => v == cpu_r,
            None => false,
        };
        let ram_same = match self.last_ram {
            Some(v) => v == ram_r,
            None => false,
        };
        if cpu_same && ram_same {
            match self.current_slot {
                Some(slot) => {
                    return IconAction::Cached { path: slot_path(slot) };
                },
                None => {},
            }
        }
        let slot = self.next_slot();
        IconAction::Render { slot, path: slot_path(slot), content: render_icon_svg(stats) }
    }

    /// Records a successful render for `stats`: the rounded values
    /// become the new baseline and the written slot becomes current.
    pub fn note_rendered(&mut self, stats: &SystemMetrics)
        ensures
            *final(self) == after_render_spec(
                *old(self),
                cpu_rounded_spec(*stats),
                ram_rounded_spec(*stats),
            ),
    {
        let cpu_r = cpu_rounded(stats);
        let ram_r = ram_rounded(stats);
        let slot = self.next_slot();
        self.last_cpu = Some(cpu_r);
        self.last_ram = Some(ram_r);
        self.current_slot = Some(slot);
    }
}

/// Two snapshots with the same rounded CPU and RAM values hit the
/// cache in sequence: once one of them is rendered, deciding for the
/// other asks for no write and returns the artifact just produced;
/// and a state that already matches one of them matches the other.
pub proof fn lemma_second_call_is_hit(c: IconCache, s1: SystemMetrics, s2: SystemMetrics)
    requires
        cpu_rounded_spec(s1) == cpu_rounded_spec(s2),
        ram_rounded_spec(s1) == ram_rounded_spec(s2),
    ensures
        !needs_update_spec(
            after_render_spec(c, cpu_rounded_spec(s1), ram_rounded_spec(s1)),
            cpu_rounded_spec(s2),
            ram_rounded_spec(s2),
        ),
        !needs_update_spec(c, cpu_rounded_spec(s1), ram_rounded_spec(s1))
            ==> !needs_update_spec(c, cpu_rounded_spec(s2), ram_rounded_spec(s2)),
{
}

/// A snapshot whose rounded CPU or RAM value differs from the last
/// rendered one forces a render, and that render goes to a path
/// different from the one currently handed out.
pub proof fn lemma_changed_rounded_rerenders(c: IconCache, s1: SystemMetrics, s2: SystemMetrics)
    requires
        cpu_rounded_spec(s1) != cpu_rounded_spec(s2) || ram_rounded_spec(s1) != ram_rounded_spec(
            s2,
        ),
    ensures
        ({
            let c2 = after_render_spec(c, cpu_rounded_spec(s1), ram_rounded_spec(s1));
            &&& needs_update_spec(c2, cpu_rounded_spec(s2), ram_rounded_spec(s2))
            &&& slot_path_spec(next_slot_spec(c2)) != slot_path_spec(c2.current_slot->Some_0)
        }),
{
    lemma_slot_paths_differ();
}

/// Renders alternate deterministically between the two slots: each
/// render goes to the slot opposite the previous render's, and the
/// very first render goes to slot A.
pub proof fn lemma_slots_alternate(c: IconCache, cpu_r: u64, ram_r: u64)
    ensures
        ({
            let c2 = after_render_spec(c, cpu_r, ram_r);
            &&& c2.current_slot == Some(next_slot_spec(c))
            &&& next_slot_spec(c2) != next_slot_spec(c)
            &&& c.current_slot is None ==> c2.current_slot == Some(IconSlot::SlotA)
        }),
{
}

} // verus!
