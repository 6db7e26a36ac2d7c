//! Wire messages: the JSON bytes pushed to viewers.
//!
//! The payload shapes are fixed for viewer compatibility: field names and
//! nesting mirror the snapshot structure exactly. The memory message is
//! `{"total":N,"used":N}`; the process message is a JSON array of at most
//! `TOP_N` objects `{"name":S,"cpu_usage":N}`. Every function here renders
//! to the exact byte sequence its specification gives.

use vstd::prelude::*;
use crate::snapshots::{MemorySnapshot, ProcessInfo};

verus! {

/// Decimal digits of `n`, most significant first, no sign, no padding.
pub open spec fn dec_u64(n: nat) -> Seq<u8>
    decreases n,
{
    if n < 10 {
        seq![(48 + n) as u8]
    } else {
        dec_u64(n / 10) + seq![(48 + n % 10) as u8]
    }
}

/// Decimal rendering of a signed value: a leading `-` for negatives.
pub open spec fn dec_i32(v: int) -> Seq<u8> {
    if v < 0 {
        seq![('-' as u8)] + dec_u64((-v) as nat)
    } else {
        dec_u64(v as nat)
    }
}

/// Lowercase hex digit for `n < 16`.
pub open spec fn hex_digit(n: u8) -> u8 {
    if n < 10 {
        (48 + n) as u8
    } else {
        (87 + n) as u8
    }
}

/// JSON escape of one byte of string content: `\"` and `\\`, the short
/// escapes `\b \t \n \f \r`, `\u00XY` for the remaining control bytes,
/// and every other byte unchanged.
pub open spec fn esc_byte(b: u8) -> Seq<u8> {
    if b == 0x22 {
        seq![('\\' as u8), ('"' as u8)]
    } else if b == 0x5c {
        seq![('\\' as u8), ('\\' as u8)]
    } else if b == 0x08 {
        seq![('\\' as u8), ('b' as u8)]
    } else if b == 0x09 {
        seq![('\\' as u8), ('t' as u8)]
    } else if b == 0x0a {
        seq![('\\' as u8), ('n' as u8)]
    } else if b == 0x0c {
        seq![('\\' as u8), ('f' as u8)]
    } else if b == 0x0d {
        seq![('\\' as u8), ('r' as u8)]
    } else if b < 0x20 {
        seq![('\\' as u8), ('u' as u8), ('0' as u8), ('0' as u8), hex_digit(b / 16), hex_digit(b % 16)]
    } else {
        seq![b]
    }
}

/// JSON escape of a whole string body, byte by byte.
pub open spec fn json_escaped(s: Seq<u8>) -> Seq<u8>
    decreases s.len(),
{
    if s.len() == 0 {
        Seq::empty()
    } else {
        json_escaped(s.drop_last()) + esc_byte(s.last())
    }
}

/// `{"total":` — opening of the memory message.
pub open spec fn mem_opening() -> Seq<u8> {
    seq![('{' as u8), ('"' as u8), ('t' as u8), ('o' as u8), ('t' as u8), ('a' as u8), ('l' as u8), ('"' as u8), (':' as u8)]
}

/// `,"used":` — middle of the memory message.
pub open spec fn mem_middle() -> Seq<u8> {
    seq![(',' as u8), ('"' as u8), ('u' as u8), ('s' as u8), ('e' as u8), ('d' as u8), ('"' as u8), (':' as u8)]
}

/// The memory message: `{"total":T,"used":U}`, both values verbatim.
pub open spec fn mem_message(total: u64, used: u64) -> Seq<u8> {
    mem_opening() + dec_u64(total as nat) + mem_middle() + dec_u64(used as nat) + seq![('}' as u8)]
}

/// `{"name":"` — opening of one process entry.
pub open spec fn proc_opening() -> Seq<u8> {
    seq![('{' as u8), ('"' as u8), ('n' as u8), ('a' as u8), ('m' as u8), ('e' as u8), ('"' as u8), (':' as u8), ('"' as u8)]
}

/// `","cpu_usage":` — middle of one process entry.
pub open spec fn proc_middle() -> Seq<u8> {
    seq![('"' as u8), (',' as u8), ('"' as u8), ('c' as u8), ('p' as u8), ('u' as u8), ('_' as u8), ('u' as u8), ('s' as u8), ('a' as u8), ('g' as u8), ('e' as u8), ('"' as u8), (':' as u8)]
}

/// One process entry: `{"name":"...","cpu_usage":N}`.
pub open spec fn proc_entry(p: ProcessInfo) -> Seq<u8> {
    proc_opening() + json_escaped(p.name@) + proc_middle() + dec_i32(p.cpu_usage as int) + seq![('}' as u8)]
}

/// The comma-separated entries of the process message.
pub open spec fn proc_entries(ps: Seq<ProcessInfo>) -> Seq<u8>
    decreases ps.len(),
{
    if ps.len() == 0 {
        Seq::empty()
    } else if ps.len() == 1 {
        proc_entry(ps[0])
    } else {
        proc_entries(ps.drop_last()) + seq![(',' as u8)] + proc_entry(ps.last())
    }
}

/// The process message: a JSON array of the entries, in order.
pub open spec fn proc_message(ps: Seq<ProcessInfo>) -> Seq<u8> {
    seq![('[' as u8)] + proc_entries(ps) + seq![(']' as u8)]
}

/// Appends the decimal digits of `n`.
pub fn render_u64(n: u64, out: &mut Vec<u8>)
    ensures
        final(out)@ == old(out)@ + dec_u64(n as nat),
    decreases n,
{
    if n < 10 {
        out.push(('0' as u8) + n as u8);
        assert(out@ =~= old(out)@ + dec_u64(n as nat));
    } else {
        render_u64(n / 10, out);
        out.push(('0' as u8) + (n % 10) as u8);
        assert(out@ =~= old(out)@ + dec_u64(n as nat));
    }
}

/// Appends the decimal rendering of `v`, sign included.
fn render_i32(v: i32, out: &mut Vec<u8>)
    ensures
        final(out)@ == old(out)@ + dec_i32(v as int),
{
    if v < 0 {
        out.push(('-' as u8));
        let m: u64 = (-(v as i64)) as u64;
        render_u64(m, out);
        assert(out@ =~= old(out)@ + dec_i32(v as int));
    } else {
        render_u64(v as u64, out);
    }
}

/// Appends the JSON escape of one string-content byte.
fn render_escaped_byte(b: u8, out: &mut Vec<u8>)
    ensures
        final(out)@ == old(out)@ + esc_byte(b),
{
    if b == 0x22 {
        out.push(('\\' as u8));
        out.push(('"' as u8));
    } else if b == 0x5c {
        out.push(('\\' as u8));
        out.push(('\\' as u8));
    } else if b == 0x08 {
        out.push(('\\' as u8));
        out.push(('b' as u8));
    } else if b == 0x09 {
        out.push(('\\' as u8));
        out.push(('t' as u8));
    } else if b == 0x0a {
        out.push(('\\' as u8));
        out.push(('n' as u8));
    } else if b == 0x0c {
        out.push(('\\' as u8));
        out.push(('f' as u8));
    } else if b == 0x0d {
        out.push(('\\' as u8));
        out.push(('r' as u8));
    } else if b < 0x20 {
        out.push(('\\' as u8));
        out.push(('u' as u8));
        out.push(('0' as u8));
        out.push(('0' as u8));
        let hi = b / 16;
        let lo = b % 16;
        out.push(if hi < 10 { ('0' as u8) + hi } else { 87 + hi });
        out.push(if lo < 10 { ('0' as u8) + lo } else { 87 + lo });
    } else {
        out.push(b);
    }
    assert(out@ =~= old(out)@ + esc_byte(b));
}

/// Appends the JSON escape of a whole string body.
fn render_escaped(s: &Vec<u8>, out: &mut Vec<u8>)
    ensures
        final(out)@ == old(out)@ + json_escaped(s@),
{
    let ghost base = out@;
    let mut i: usize = 0;
    while i < s.len()
        invariant
            0 <= i <= s@.len(),
            out@ == base + json_escaped(s@.take(i as int)),
        decreases s@.len() - i,
    {
        render_escaped_byte(s[i], out);
        proof {
            assert(s@.take(i as int + 1).drop_last() =~= s@.take(i as int));
            assert(s@.take(i as int + 1).last() == s@[i as int]);
        }
        i = i + 1;
    }
    proof {
        assert(s@.take(s@.len() as int) =~= s@);
    }
}

/// Renders the memory message `{"total":T,"used":U}` for the snapshot,
/// both readings verbatim, no transformation.
pub fn render_memory_message(m: &MemorySnapshot) -> (r: Vec<u8>)
    ensures
        r@ == mem_message(m.total, m.used),
{
    let mut out: Vec<u8> = Vec::new();
    out.push(('{' as u8));
    out.push(('"' as u8));
    out.push(('t' as u8));
    out.push(('o' as u8));
    out.push(('t' as u8));
    out.push(('a' as u8));
    out.push(('l' as u8));
    out.push(('"' as u8));
    out.push((':' as u8));
    assert(out@ =~= mem_opening());
    render_u64(m.total, &mut out);
    out.push((',' as u8));
    out.push(('"' as u8));
    out.push(('u' as u8));
    out.push(('s' as u8));
    out.push(('e' as u8));
    out.push(('d' as u8));
    out.push(('"' as u8));
    out.push((':' as u8));
    assert(out@ =~= mem_opening() + dec_u64(m.total as nat) + mem_middle());
    render_u64(m.used, &mut out);
    out.push(('}' as u8));
    assert(out@ =~= mem_message(m.total, m.used));
    out
}

/// Appends one process entry `{"name":"...","cpu_usage":N}`.
fn render_proc_entry(p: &ProcessInfo, out: &mut Vec<u8>)
    ensures
        final(out)@ == old(out)@ + proc_entry(*p),
{
    let ghost base = out@;
    out.push(('{' as u8));
    out.push(('"' as u8));
    out.push(('n' as u8));
    out.push(('a' as u8));
    out.push(('m' as u8));
    out.push(('e' as u8));
    out.push(('"' as u8));
    out.push((':' as u8));
    out.push(('"' as u8));
    assert(out@ =~= base + proc_opening());
    render_escaped(&p.name, out);
    out.push(('"' as u8));
    out.push((',' as u8));
    out.push(('"' as u8));
    out.push(('c' as u8));
    out.push(('p' as u8));
    out.push(('u' as u8));
    out.push(('_' as u8));
    out.push(('u' as u8));
    out.push(('s' as u8));
    out.push(('a' as u8));
    out.push(('g' as u8));
    out.push(('e' as u8));
    out.push(('"' as u8));
    out.push((':' as u8));
    assert(out@ =~= base + proc_opening() + json_escaped(p.name@) + proc_middle());
    render_i32(p.cpu_usage, out);
    out.push(('}' as u8));
    assert(out@ =~= base + proc_entry(*p));
}

/// Renders the process message: a JSON array with one object per ranked
/// process, in ranking order.
pub fn render_process_message(ps: &Vec<ProcessInfo>) -> (r: Vec<u8>)
    ensures
        r@ == proc_message(ps@),
{
    let mut out: Vec<u8> = Vec::new();
    out.push(('[' as u8));
    let mut i: usize = 0;
    while i < ps.len()
        invariant
            0 <= i <= ps@.len(),
            out@ == seq![('[' as u8)] + proc_entries(ps@.take(i as int)),
        decreases ps@.len() - i,
    {
        if i > 0 {
            out.push((',' as u8));
        }
        render_proc_entry(&ps[i], &mut out);
        proof {
            assert(ps@.take(i as int + 1).drop_last() =~= ps@.take(i as int));
            assert(ps@.take(i as int + 1).last() == ps@[i as int]);
            if i == 0 {
                assert(proc_entries(ps@.take(1)) == proc_entry(ps@[0]));
            }
        }
        i = i + 1;
        assert(out@ =~= seq![('[' as u8)] + proc_entries(ps@.take(i as int)));
    }
    proof {
        assert(ps@.take(ps@.len() as int) =~= ps@);
    }
    out.push((']' as u8));
    assert(out@ =~= proc_message(ps@));
    out
}

} // verus!
