//! Process ranking: sort the host's process list by CPU usage, descending
//! and stable (ties keep the host's enumeration order), and keep the top
//! `TOP_N` entries.

use vstd::prelude::*;
use crate::snapshots::ProcessInfo;

verus! {

/// Number of top processes a published snapshot retains.
pub const TOP_N: usize = 4;

/// `s` is sorted by `cpu_usage`, descending: every adjacent pair is
/// non-increasing (stated over all index pairs).
pub open spec fn sorted_desc(s: Seq<ProcessInfo>) -> bool {
    forall|i: int, j: int| 0 <= i <= j < s.len() ==> s[i].cpu_usage >= s[j].cpu_usage
}

/// `x` inserted into `s` behind every entry whose usage is at least `x`'s:
/// on a descending-sorted `s` this keeps the order and puts `x` behind its
/// equals, which is what makes the overall sort stable.
pub open spec fn insert_desc(s: Seq<ProcessInfo>, x: ProcessInfo) -> Seq<ProcessInfo>
    decreases s.len(),
{
    if s.len() == 0 {
        seq![x]
    } else if s[0].cpu_usage >= x.cpu_usage {
        seq![s[0]] + insert_desc(s.drop_first(), x)
    } else {
        seq![x] + s
    }
}

/// Stable descending sort by `cpu_usage`: entries are taken in their
/// original order and each is inserted behind its equals.
pub open spec fn sort_desc(s: Seq<ProcessInfo>) -> Seq<ProcessInfo>
    decreases s.len(),
{
    if s.len() == 0 {
        Seq::empty()
    } else {
        insert_desc(sort_desc(s.drop_last()), s.last())
    }
}

/// The published ranking: the stable descending sort, truncated to `TOP_N`.
pub open spec fn spec_top(s: Seq<ProcessInfo>) -> Seq<ProcessInfo> {
    if s.len() <= TOP_N {
        sort_desc(s)
    } else {
        sort_desc(s).take(TOP_N as int)
    }
}

proof fn lemma_insert_desc_len(s: Seq<ProcessInfo>, x: ProcessInfo)
    ensures
        insert_desc(s, x).len() == s.len() + 1,
    decreases s.len(),
{
    if s.len() > 0 && s[0].cpu_usage >= x.cpu_usage {
        lemma_insert_desc_len(s.drop_first(), x);
    }
}

/// Every entry of `insert_desc(s, x)` is `x` or an entry of `s`.
proof fn lemma_insert_desc_element(s: Seq<ProcessInfo>, x: ProcessInfo, k: int)
    requires
        0 <= k < s.len() + 1,
    ensures
        insert_desc(s, x).len() == s.len() + 1,
        insert_desc(s, x)[k] == x || exists|m: int| 0 <= m < s.len() && insert_desc(s, x)[k] == s[m],
    decreases s.len(),
{
    lemma_insert_desc_len(s, x);
    if s.len() > 0 && s[0].cpu_usage >= x.cpu_usage {
        if k > 0 {
            lemma_insert_desc_element(s.drop_first(), x, k - 1);
            if insert_desc(s, x)[k] != x {
                let m = choose|m: int|
                    0 <= m < s.drop_first().len() && insert_desc(s.drop_first(), x)[k - 1]
                        == s.drop_first()[m];
                assert(insert_desc(s, x)[k] == s[m + 1]);
            }
        } else {
            assert(insert_desc(s, x)[0] == s[0]);
        }
    } else if s.len() > 0 {
        if k > 0 {
            assert(insert_desc(s, x)[k] == s[k - 1]);
        }
    }
}

proof fn lemma_insert_desc_sorted(s: Seq<ProcessInfo>, x: ProcessInfo)
    requires
        sorted_desc(s),
    ensures
        sorted_desc(insert_desc(s, x)),
    decreases s.len(),
{
    if s.len() == 0 {
    } else if s[0].cpu_usage >= x.cpu_usage {
        assert(sorted_desc(s.drop_first()));
        lemma_insert_desc_sorted(s.drop_first(), x);
        lemma_insert_desc_len(s.drop_first(), x);
        let r = seq![s[0]] + insert_desc(s.drop_first(), x);
        assert forall|i: int, j: int| 0 <= i <= j < r.len() implies r[i].cpu_usage >= r[j].cpu_usage by {
            if i == 0 && j > 0 {
                let t = insert_desc(s.drop_first(), x);
                assert(r[j] == t[j - 1]);
                lemma_insert_desc_element(s.drop_first(), x, j - 1);
                if t[j - 1] != x {
                    let m = choose|m: int| 0 <= m < s.drop_first().len() && t[j - 1] == s.drop_first()[m];
                    assert(t[j - 1] == s[m + 1]);
                }
            } else if i > 0 {
                let t = insert_desc(s.drop_first(), x);
                assert(r[i] == t[i - 1] && r[j] == t[j - 1]);
            }
        }
        assert(insert_desc(s, x) == r);
    } else {
        let r = seq![x] + s;
        assert forall|i: int, j: int| 0 <= i <= j < r.len() implies r[i].cpu_usage >= r[j].cpu_usage by {
            if i == 0 && j > 0 {
                assert(r[j] == s[j - 1]);
                assert(s[0].cpu_usage >= s[j - 1].cpu_usage);
            } else if i > 0 {
                assert(r[i] == s[i - 1] && r[j] == s[j - 1]);
            }
        }
    }
}

/// Prepending one entry inserts it into the sequence's multiset.
proof fn lemma_prepend_multiset(h: ProcessInfo, t: Seq<ProcessInfo>)
    ensures
        (seq![h] + t).to_multiset() == t.to_multiset().insert(h),
{
    broadcast use vstd::seq_lib::group_to_multiset_ensures;
    broadcast use vstd::multiset::group_multiset_axioms;

    let r = seq![h] + t;
    assert(r.remove(0) =~= t);
    assert(r[0] == h);
    assert(r.remove(0).to_multiset() =~= r.to_multiset().remove(h));
    assert(r.to_multiset().count(h) > 0) by {
        assert(r.contains(h));
    }
    assert(r.to_multiset() =~= t.to_multiset().insert(h));
}

proof fn lemma_insert_desc_multiset(s: Seq<ProcessInfo>, x: ProcessInfo)
    ensures
        insert_desc(s, x).to_multiset() == s.to_multiset().insert(x),
    decreases s.len(),
{
    broadcast use vstd::seq_lib::group_to_multiset_ensures;
    broadcast use vstd::multiset::group_multiset_axioms;

    if s.len() == 0 {
        assert(seq![x] =~= s.push(x));
    } else if s[0].cpu_usage >= x.cpu_usage {
        lemma_insert_desc_multiset(s.drop_first(), x);
        lemma_prepend_multiset(s[0], insert_desc(s.drop_first(), x));
        lemma_prepend_multiset(s[0], s.drop_first());
        assert(seq![s[0]] + s.drop_first() =~= s);
        assert(insert_desc(s, x).to_multiset() == s.drop_first().to_multiset().insert(x).insert(
            s[0],
        ));
        assert(s.to_multiset().insert(x) == s.drop_first().to_multiset().insert(s[0]).insert(x));
        assert(s.drop_first().to_multiset().insert(x).insert(s[0]) =~= s.drop_first().to_multiset().insert(s[0]).insert(x));
    } else {
        lemma_prepend_multiset(x, s);
    }
}

/// The published ranking is drawn from the host's own process list: the
/// sort is a permutation of its input, so every published entry is a
/// process the host reported, with its reported usage.
pub proof fn lemma_sort_desc_permutes(s: Seq<ProcessInfo>)
    ensures
        sort_desc(s).to_multiset() == s.to_multiset(),
    decreases s.len(),
{
    broadcast use vstd::seq_lib::group_to_multiset_ensures;

    if s.len() > 0 {
        lemma_sort_desc_permutes(s.drop_last());
        lemma_insert_desc_multiset(sort_desc(s.drop_last()), s.last());
        assert(s =~= s.drop_last().push(s.last()));
    }
}

/// The stable descending sort keeps the length and is sorted.
pub proof fn lemma_sort_desc_ensures(s: Seq<ProcessInfo>)
    ensures
        sort_desc(s).len() == s.len(),
        sorted_desc(sort_desc(s)),
    decreases s.len(),
{
    if s.len() > 0 {
        lemma_sort_desc_ensures(s.drop_last());
        lemma_insert_desc_sorted(sort_desc(s.drop_last()), s.last());
        lemma_insert_desc_len(sort_desc(s.drop_last()), s.last());
    }
}

/// A prefix of a descending-sorted sequence is descending-sorted; with the
/// length bound this is the shape law of every published process snapshot:
/// at most `TOP_N` entries, adjacent pairs non-increasing.
pub proof fn lemma_top_shape(s: Seq<ProcessInfo>)
    ensures
        sorted_desc(spec_top(s)),
        spec_top(s).len() <= TOP_N,
        spec_top(s).len() == if s.len() <= TOP_N { s.len() } else { TOP_N as nat },
{
    lemma_sort_desc_ensures(s);
}

/// Inserting `x` at position `pos` of `r`, where everything before `pos`
/// has usage at least `x`'s and the entry at `pos` (if any) has less,
/// is exactly `insert_desc`.
proof fn lemma_insert_desc_at(r: Seq<ProcessInfo>, x: ProcessInfo, pos: int)
    requires
        0 <= pos <= r.len(),
        forall|i: int| 0 <= i < pos ==> r[i].cpu_usage >= x.cpu_usage,
        pos < r.len() ==> r[pos].cpu_usage < x.cpu_usage,
    ensures
        insert_desc(r, x) == r.take(pos) + seq![x] + r.skip(pos),
    decreases r.len(),
{
    if r.len() == 0 {
        assert(insert_desc(r, x) =~= r.take(0) + seq![x] + r.skip(0));
    } else if pos == 0 {
        assert(insert_desc(r, x) =~= r.take(0) + seq![x] + r.skip(0));
    } else {
        lemma_insert_desc_at(r.drop_first(), x, pos - 1);
        assert(seq![r[0]] + (r.drop_first().take(pos - 1) + seq![x] + r.drop_first().skip(pos - 1))
            =~= r.take(pos) + seq![x] + r.skip(pos));
    }
}

/// Inserts `x` behind every entry whose usage is at least `x`'s.
fn insert_ranked(r: &mut Vec<ProcessInfo>, x: ProcessInfo)
    ensures
        final(r)@ == insert_desc(old(r)@, x),
{
    let ghost orig = r@;
    let mut pos: usize = 0;
    while pos < r.len() && r[pos].cpu_usage >= x.cpu_usage
        invariant
            r@ == orig,
            0 <= pos <= r@.len(),
            forall|i: int| 0 <= i < pos ==> r@[i].cpu_usage >= x.cpu_usage,
        decreases r@.len() - pos,
    {
        pos = pos + 1;
    }
    proof {
        lemma_insert_desc_at(orig, x, pos as int);
    }
    r.insert(pos, x);
    assert(r@ =~= orig.take(pos as int) + seq![x] + orig.skip(pos as int));
}

/// Ranks the host's process list: stable descending sort by `cpu_usage`
/// (equal usages keep the host's enumeration order) truncated to the top
/// `TOP_N` entries.
pub fn top_processes(list: Vec<ProcessInfo>) -> (r: Vec<ProcessInfo>)
    ensures
        r@ == spec_top(list@),
        r@.len() <= TOP_N,
        r@.len() == if list@.len() <= TOP_N { list@.len() as int } else { TOP_N as int },
        sorted_desc(r@),
{
    let ghost input = list@;
    let mut rest = list;
    let mut sorted: Vec<ProcessInfo> = Vec::new();
    let mut i: usize = 0;
    let n = rest.len();
    // Consume the input front to back, inserting each entry behind its
    // equals, so equal-usage entries keep their enumeration order.
    while i < n
        invariant
            n == input.len(),
            0 <= i <= n,
            rest@ == input.skip(i as int),
            sorted@ == sort_desc(input.take(i as int)),
        decreases n - i,
    {
        let x = rest.remove(0);
        proof {
            assert(input.skip(i as int)[0] == input[i as int]);
            assert(input.skip(i as int).remove(0) =~= input.skip(i as int + 1));
            assert(input.take(i as int + 1).drop_last() =~= input.take(i as int));
            assert(input.take(i as int + 1).last() == input[i as int]);
        }
        insert_ranked(&mut sorted, x);
        i = i + 1;
    }
    proof {
        assert(input.take(n as int) =~= input);
        lemma_sort_desc_ensures(input);
    }
    if sorted.len() > TOP_N {
        sorted.truncate(TOP_N);
    }
    sorted
}

} // verus!
