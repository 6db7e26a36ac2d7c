//! The three telemetry snapshot kinds.
//!
//! Every snapshot is transient: it is recomputed from fresh host readings,
//! published once, and superseded by the next cycle's value.
//!
//! Fractional host readings (per-core usage percentages and temperatures)
//! are carried as the 32-bit IEEE-754 bit patterns the host reported; the
//! core never inspects or transforms them, it only routes them, so they
//! stay opaque `u32` values here. The caller converts between readings and
//! bit patterns at the boundary.

use vstd::prelude::*;

verus! {

/// One logical core's share of a CPU snapshot: its usage percentage and,
/// when the host exposes a matching per-core sensor, its temperature.
#[derive(Clone, Debug)]
pub struct CpuCore {
    /// Bit pattern of the core's usage percentage reading.
    pub usage_bits: u32,
    /// Bit pattern of the core's temperature reading, when a sensor matched.
    pub temp_bits: Option<u32>,
}

/// Per-core usage and temperature, plus the package-level temperature,
/// recomputed every sampling cycle.
#[derive(Clone, Debug)]
pub struct CpuSnapshot {
    /// One record per logical core, in the host's enumeration order.
    pub cores: Vec<CpuCore>,
    /// Bit pattern of the package temperature reading; the bit pattern of
    /// zero when no package sensor is present.
    pub temp_bits: u32,
    /// Whether per-core temperature sensors are available on this host.
    pub core_temp: bool,
}

/// Total and used memory, in bytes, as the host reported them.
#[derive(Clone, Copy, Debug, PartialEq, Eq, Structural)]
pub struct MemorySnapshot {
    pub total: u64,
    pub used: u64,
}

impl MemorySnapshot {
    /// Builds the snapshot verbatim from the host's two readings: no
    /// transformation of either value.
    pub fn new(total: u64, used: u64) -> (m: MemorySnapshot)
        ensures
            m.total == total,
            m.used == used,
    {
        MemorySnapshot { total, used }
    }

    /// Whether the two readings are mutually consistent. The host is
    /// expected, but not guaranteed, to report `used <= total`; a
    /// violation is a data-quality issue, never a crash, so this is a
    /// check, not an invariant of the type.
    pub fn is_consistent(&self) -> (r: bool)
        ensures
            r == (self.used <= self.total),
    {
        self.used <= self.total
    }
}

/// One entry of the process snapshot: the process name and its CPU usage
/// as a whole percentage (the host's fractional reading, truncated toward
/// zero by the caller at the boundary).
#[derive(Clone, Debug)]
pub struct ProcessInfo {
    /// UTF-8 bytes of the process name.
    pub name: Vec<u8>,
    pub cpu_usage: i32,
}

/// One temperature sensor as the host exposes it: a textual label and the
/// bit pattern of its reading.
#[derive(Clone, Debug)]
pub struct Component {
    /// UTF-8 bytes of the sensor label.
    pub label: Vec<u8>,
    /// Bit pattern of the sensor's temperature reading.
    pub temp_bits: u32,
}

} // verus!
