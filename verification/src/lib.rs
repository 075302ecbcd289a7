//! A verified core for a small desktop system monitor.
//!
//! A background sampler polls the operating system for CPU, memory,
//! disk, network and uptime readings and assembles them into
//! immutable snapshots; a UI-side consumer formats those snapshots
//! for display and keeps a dirty-checking cache of the rendered tray
//! icon so that an unchanged reading never causes a redundant write.

pub mod icon;
pub mod metrics;
pub mod monitor;
pub mod pipeline;
pub mod text;
