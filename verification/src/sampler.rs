//! The sampler: the single producer of all three telemetry kinds.
//!
//! Each cycle the surrounding loop gathers the host readings, asks
//! `begin_cycle` whether the slow-cadence metrics (memory and processes)
//! are due this cycle, computes the snapshots through the verified
//! builders and publishes each to its own hub. The sampler owns the
//! publishing side of all three hubs, so there is a single producer per
//! hub by construction; it never observes how many subscribers exist.

use vstd::prelude::*;
use crate::cadence::Cadence;
use crate::cpu::{build_cpu_snapshot, first_core_temp, package_temp};
use crate::hub::Hub;
use crate::ranking::{spec_top, top_processes};
use crate::snapshots::{Component, CpuSnapshot, MemorySnapshot, ProcessInfo};

verus! {

/// The published CPU snapshot `r` is exactly what the host readings
/// determine: one core per usage reading in enumeration order, per-core
/// temperatures from the first matching sensor when enabled, the package
/// temperature from the last matching sensor.
pub open spec fn cpu_snapshot_matches(
    r: CpuSnapshot,
    usages: Seq<u32>,
    comps: Seq<Component>,
    enabled: bool,
) -> bool {
    &&& r.cores@.len() == usages.len()
    &&& forall|i: int| 0 <= i < usages.len() ==> r.cores@[i].usage_bits == usages[i]
    &&& forall|i: int|
        0 <= i < usages.len() ==> r.cores@[i].temp_bits == (if enabled {
            first_core_temp(comps, i as nat)
        } else {
            None::<u32>
        })
    &&& r.core_temp == enabled
    &&& r.temp_bits == package_temp(comps)
}

/// The single producer: the decimation state and the publishing side of
/// the three per-kind hubs.
pub struct Sampler {
    pub cadence: Cadence,
    pub cpu_hub: Hub<CpuSnapshot>,
    pub ram_hub: Hub<MemorySnapshot>,
    pub process_hub: Hub<Vec<ProcessInfo>>,
}

impl Sampler {
    /// The decimation counter is in range and there is room to publish.
    pub open spec fn wf(self) -> bool {
        &&& self.cadence.wf()
        &&& self.cpu_hub.published@.len() < usize::MAX
        &&& self.ram_hub.published@.len() < usize::MAX
        &&& self.process_hub.published@.len() < usize::MAX
    }

    /// A fresh sampler: nothing published, slow metrics due on the very
    /// first cycle.
    pub fn new() -> (s: Sampler)
        ensures
            s.wf(),
            s.cadence.counter() == 0,
            s.cpu_hub.published@.len() == 0,
            s.ram_hub.published@.len() == 0,
            s.process_hub.published@.len() == 0,
    {
        Sampler {
            cadence: Cadence::new(),
            cpu_hub: Hub::new(),
            ram_hub: Hub::new(),
            process_hub: Hub::new(),
        }
    }

    /// Opens one sampling cycle: advances the decimation counter and
    /// reports whether memory and processes are to be refreshed this
    /// cycle. CPU is refreshed every cycle regardless. Publishes nothing.
    pub fn begin_cycle(&mut self) -> (slow: bool)
        requires
            old(self).wf(),
        ensures
            final(self).wf(),
            slow == (old(self).cadence.counter() == 0),
            final(self).cadence.counter() == (old(self).cadence.counter() + 1) % (crate::cadence::DECIMATION as int),
            final(self).cpu_hub.published@ == old(self).cpu_hub.published@,
            final(self).ram_hub.published@ == old(self).ram_hub.published@,
            final(self).process_hub.published@ == old(self).process_hub.published@,
    {
        self.cadence.step()
    }

    /// Computes this cycle's CPU snapshot from the host readings and
    /// publishes it; the other hubs and the cadence are untouched.
    pub fn publish_cpu(
        &mut self,
        usage_bits: &Vec<u32>,
        components: &Vec<Component>,
        core_temp_enabled: bool,
    )
        requires
            old(self).wf(),
        ensures
            final(self).cadence == old(self).cadence,
            final(self).cpu_hub.published@.len() == old(self).cpu_hub.published@.len() + 1,
            final(self).cpu_hub.published@.take(old(self).cpu_hub.published@.len() as int)
                == old(self).cpu_hub.published@,
            cpu_snapshot_matches(
                final(self).cpu_hub.published@.last(),
                usage_bits@,
                components@,
                core_temp_enabled,
            ),
            final(self).ram_hub.published@ == old(self).ram_hub.published@,
            final(self).process_hub.published@ == old(self).process_hub.published@,
    {
        let snap = build_cpu_snapshot(usage_bits, components, core_temp_enabled);
        self.cpu_hub.publish(snap);
        proof {
            assert(self.cpu_hub.published@.take(old(self).cpu_hub.published@.len() as int)
                =~= old(self).cpu_hub.published@);
        }
    }

    /// Builds the memory snapshot verbatim from the host's two readings
    /// and publishes it; no transformation of either value.
    pub fn publish_memory(&mut self, total: u64, used: u64)
        requires
            old(self).wf(),
        ensures
            final(self).cadence == old(self).cadence,
            final(self).ram_hub.published@ == old(self).ram_hub.published@.push(
                MemorySnapshot { total, used },
            ),
            final(self).cpu_hub.published@ == old(self).cpu_hub.published@,
            final(self).process_hub.published@ == old(self).process_hub.published@,
    {
        let snap = MemorySnapshot::new(total, used);
        self.ram_hub.publish(snap);
    }

    /// Ranks the host's process list — stable descending sort by CPU
    /// usage, truncated to the top entries — and publishes the ranking.
    pub fn publish_processes(&mut self, list: Vec<ProcessInfo>)
        requires
            old(self).wf(),
        ensures
            final(self).cadence == old(self).cadence,
            final(self).process_hub.published@.len() == old(
                self,
            ).process_hub.published@.len() + 1,
            final(self).process_hub.published@.take(
                old(self).process_hub.published@.len() as int,
            ) == old(self).process_hub.published@,
            final(self).process_hub.published@.last()@ == spec_top(list@),
            final(self).cpu_hub.published@ == old(self).cpu_hub.published@,
            final(self).ram_hub.published@ == old(self).ram_hub.published@,
    {
        let ranked = top_processes(list);
        self.process_hub.publish(ranked);
        proof {
            assert(self.process_hub.published@.take(
                old(self).process_hub.published@.len() as int,
            ) =~= old(self).process_hub.published@);
        }
    }
}

} // verus!
