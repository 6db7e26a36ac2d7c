//! CPU snapshot assembly: one record per logical core, enriched with
//! per-core temperatures when the host exposes matching sensors, plus the
//! package-level temperature.
//!
//! Sensor matching follows the host's naming convention: the sensor for
//! logical core `i` is the first component whose label contains
//! `coretemp Core i`; the package temperature comes from the last
//! component whose label contains `coretemp Package` or `cpu_thermal`.

use vstd::prelude::*;
use crate::snapshots::{Component, CpuCore, CpuSnapshot};
use crate::wire::{dec_u64, render_u64};

verus! {

/// The bytes of `needle` occur in `hay` starting at position `i`.
pub open spec fn matches_at(hay: Seq<u8>, needle: Seq<u8>, i: int) -> bool {
    0 <= i && i + needle.len() <= hay.len() && hay.subrange(i, i + needle.len()) == needle
}

/// `needle` occurs somewhere in `hay` (substring containment).
pub open spec fn contains_seq(hay: Seq<u8>, needle: Seq<u8>) -> bool {
    exists|i: int| matches_at(hay, needle, i)
}

/// Whether `needle` occurs in `hay` starting at `i`.
fn matches_at_exec(hay: &Vec<u8>, needle: &Vec<u8>, i: usize) -> (r: bool)
    requires
        i + needle@.len() <= hay@.len(),
    ensures
        r == matches_at(hay@, needle@, i as int),
{
    let hn = hay.len();
    let mut j: usize = 0;
    while j < needle.len()
        invariant
            hn == hay@.len(),
            i + needle@.len() <= hay@.len(),
            0 <= j <= needle@.len(),
            forall|k: int| 0 <= k < j ==> hay@[i + k] == needle@[k],
        decreases needle@.len() - j,
    {
        assert(i + j < hn);
        if hay[i + j] != needle[j] {
            assert(hay@.subrange(i as int, i + needle@.len())[j as int] != needle@[j as int]);
            return false;
        }
        j = j + 1;
    }
    assert(hay@.subrange(i as int, i + needle@.len()) =~= needle@);
    true
}

/// Whether `needle` occurs anywhere in `hay`.
pub fn contains_bytes(hay: &Vec<u8>, needle: &Vec<u8>) -> (r: bool)
    ensures
        r == contains_seq(hay@, needle@),
{
    if needle.len() > hay.len() {
        assert(forall|i: int| !matches_at(hay@, needle@, i));
        return false;
    }
    if needle.len() == 0 {
        assert(hay@.subrange(0, 0) =~= needle@);
        assert(matches_at(hay@, needle@, 0));
        return true;
    }
    let last = hay.len() - needle.len();
    let mut i: usize = 0;
    while i <= last
        invariant
            needle@.len() <= hay@.len(),
            last == hay@.len() - needle@.len(),
            last < usize::MAX,
            0 <= i <= last + 1,
            forall|k: int| 0 <= k < i ==> !matches_at(hay@, needle@, k),
        decreases last + 1 - i,
    {
        if matches_at_exec(hay, needle, i) {
            return true;
        }
        i = i + 1;
    }
    assert forall|k: int| !matches_at(hay@, needle@, k) by {
        if k > last {
            assert(k + needle@.len() > hay@.len());
        }
    }
    false
}

/// `coretemp Core ` — the host's per-core sensor label prefix.
pub open spec fn core_label_prefix() -> Seq<u8> {
    seq![
        ('c' as u8), ('o' as u8), ('r' as u8), ('e' as u8), ('t' as u8), ('e' as u8),
        ('m' as u8), ('p' as u8), (' ' as u8), ('C' as u8), ('o' as u8), ('r' as u8),
        ('e' as u8), (' ' as u8),
    ]
}

/// The label fragment naming logical core `i`: `coretemp Core i`.
pub open spec fn core_needle(i: nat) -> Seq<u8> {
    core_label_prefix() + dec_u64(i)
}

/// `coretemp Package` — the package sensor label fragment.
pub open spec fn package_needle() -> Seq<u8> {
    seq![
        ('c' as u8), ('o' as u8), ('r' as u8), ('e' as u8), ('t' as u8), ('e' as u8),
        ('m' as u8), ('p' as u8), (' ' as u8), ('P' as u8), ('a' as u8), ('c' as u8),
        ('k' as u8), ('a' as u8), ('g' as u8), ('e' as u8),
    ]
}

/// `cpu_thermal` — the SoC thermal sensor label fragment.
pub open spec fn thermal_needle() -> Seq<u8> {
    seq![
        ('c' as u8), ('p' as u8), ('u' as u8), ('_' as u8), ('t' as u8), ('h' as u8),
        ('e' as u8), ('r' as u8), ('m' as u8), ('a' as u8), ('l' as u8),
    ]
}

/// The component carries logical core `i`'s temperature sensor.
pub open spec fn is_core_match(c: Component, i: nat) -> bool {
    contains_seq(c.label@, core_needle(i))
}

/// The component carries the package or SoC temperature sensor.
pub open spec fn is_package_match(c: Component) -> bool {
    contains_seq(c.label@, package_needle()) || contains_seq(c.label@, thermal_needle())
}

/// Reading of the first component matching logical core `i`, if any.
pub open spec fn first_core_temp(cs: Seq<Component>, i: nat) -> Option<u32>
    decreases cs.len(),
{
    if cs.len() == 0 {
        None
    } else if is_core_match(cs[0], i) {
        Some(cs[0].temp_bits)
    } else {
        first_core_temp(cs.drop_first(), i)
    }
}

/// Reading of the last package-matching component; the bit pattern of
/// zero when no such sensor is present.
pub open spec fn package_temp(cs: Seq<Component>) -> u32
    decreases cs.len(),
{
    if cs.len() == 0 {
        0
    } else if is_package_match(cs.last()) {
        cs.last().temp_bits
    } else {
        package_temp(cs.drop_last())
    }
}

/// Builds the label fragment naming logical core `i`.
fn build_core_needle(i: u64) -> (r: Vec<u8>)
    ensures
        r@ == core_needle(i as nat),
{
    let mut out: Vec<u8> = Vec::new();
    out.push('c' as u8);
    out.push('o' as u8);
    out.push('r' as u8);
    out.push('e' as u8);
    out.push('t' as u8);
    out.push('e' as u8);
    out.push('m' as u8);
    out.push('p' as u8);
    out.push(' ' as u8);
    out.push('C' as u8);
    out.push('o' as u8);
    out.push('r' as u8);
    out.push('e' as u8);
    out.push(' ' as u8);
    assert(out@ =~= core_label_prefix());
    render_u64(i, &mut out);
    out
}

/// Finds the reading of the first component matching logical core `i`.
fn find_core_temp(cs: &Vec<Component>, i: u64) -> (r: Option<u32>)
    ensures
        r == first_core_temp(cs@, i as nat),
{
    let needle = build_core_needle(i);
    assert(cs@.skip(0) =~= cs@);
    let mut j: usize = 0;
    while j < cs.len()
        invariant
            needle@ == core_needle(i as nat),
            0 <= j <= cs@.len(),
            first_core_temp(cs@, i as nat) == first_core_temp(cs@.skip(j as int), i as nat),
        decreases cs@.len() - j,
    {
        assert(cs@.skip(j as int)[0] == cs@[j as int]);
        if contains_bytes(&cs[j].label, &needle) {
            return Some(cs[j].temp_bits);
        }
        assert(cs@.skip(j as int).drop_first() =~= cs@.skip(j as int + 1));
        j = j + 1;
    }
    assert(cs@.skip(cs@.len() as int).len() == 0);
    None
}

/// Whether the component's label marks the package or SoC sensor.
fn is_package_component(c: &Component) -> (r: bool)
    ensures
        r == is_package_match(*c),
{
    let mut p: Vec<u8> = Vec::new();
    p.push('c' as u8);
    p.push('o' as u8);
    p.push('r' as u8);
    p.push('e' as u8);
    p.push('t' as u8);
    p.push('e' as u8);
    p.push('m' as u8);
    p.push('p' as u8);
    p.push(' ' as u8);
    p.push('P' as u8);
    p.push('a' as u8);
    p.push('c' as u8);
    p.push('k' as u8);
    p.push('a' as u8);
    p.push('g' as u8);
    p.push('e' as u8);
    assert(p@ =~= package_needle());
    if contains_bytes(&c.label, &p) {
        return true;
    }
    let mut t: Vec<u8> = Vec::new();
    t.push('c' as u8);
    t.push('p' as u8);
    t.push('u' as u8);
    t.push('_' as u8);
    t.push('t' as u8);
    t.push('h' as u8);
    t.push('e' as u8);
    t.push('r' as u8);
    t.push('m' as u8);
    t.push('a' as u8);
    t.push('l' as u8);
    assert(t@ =~= thermal_needle());
    contains_bytes(&c.label, &t)
}

/// Finds the package temperature: the reading of the last matching
/// component, or the bit pattern of zero when none matches.
fn find_package_temp(cs: &Vec<Component>) -> (r: u32)
    ensures
        r == package_temp(cs@),
{
    let mut acc: u32 = 0;
    let mut j: usize = 0;
    while j < cs.len()
        invariant
            0 <= j <= cs@.len(),
            acc == package_temp(cs@.take(j as int)),
        decreases cs@.len() - j,
    {
        if is_package_component(&cs[j]) {
            acc = cs[j].temp_bits;
        }
        proof {
            assert(cs@.take(j as int + 1).drop_last() =~= cs@.take(j as int));
            assert(cs@.take(j as int + 1).last() == cs@[j as int]);
        }
        j = j + 1;
    }
    assert(cs@.take(cs@.len() as int) =~= cs@);
    acc
}

/// Builds the CPU snapshot for one sampling cycle from the host's
/// readings: one record per logical core in enumeration order, each
/// carrying its usage verbatim and, when per-core sensors are enabled,
/// the reading of its first matching sensor; plus the package
/// temperature and the capability flag.
pub fn build_cpu_snapshot(
    usage_bits: &Vec<u32>,
    components: &Vec<Component>,
    core_temp_enabled: bool,
) -> (r: CpuSnapshot)
    ensures
        r.cores@.len() == usage_bits@.len(),
        forall|i: int|
            0 <= i < usage_bits@.len() ==> r.cores@[i].usage_bits == usage_bits@[i],
        forall|i: int|
            0 <= i < usage_bits@.len() ==> r.cores@[i].temp_bits == (if core_temp_enabled {
                first_core_temp(components@, i as nat)
            } else {
                None::<u32>
            }),
        r.core_temp == core_temp_enabled,
        r.temp_bits == package_temp(components@),
{
    let mut cores: Vec<CpuCore> = Vec::new();
    let mut i: usize = 0;
    while i < usage_bits.len()
        invariant
            0 <= i <= usage_bits@.len(),
            cores@.len() == i,
            forall|k: int| 0 <= k < i ==> cores@[k].usage_bits == usage_bits@[k],
            forall|k: int|
                0 <= k < i ==> cores@[k].temp_bits == (if core_temp_enabled {
                    first_core_temp(components@, k as nat)
                } else {
                    None::<u32>
                }),
        decreases usage_bits@.len() - i,
    {
        let temp_bits = if core_temp_enabled {
            find_core_temp(components, i as u64)
        } else {
            None
        };
        cores.push(CpuCore { usage_bits: usage_bits[i], temp_bits });
        i = i + 1;
    }
    let temp_bits = find_package_temp(components);
    CpuSnapshot { cores, temp_bits, core_temp: core_temp_enabled }
}

} // verus!
