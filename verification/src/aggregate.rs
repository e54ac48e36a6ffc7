//! Cross-device process aggregation.
//!
//! Every tick merges all devices' process samples into one sequence and
//! sorts it descending by attributed GPU memory with a stable sort. That
//! sequence is the sole basis for display order and for the selection index.

use crate::gpu::GpuInfo;
use crate::process::GpuProcessInfo;
use vstd::prelude::*;
use vstd::seq_lib::*;

verus! {

/// One row of the aggregated table: a process sample and the device it came
/// from.
#[derive(Debug)]
pub struct ProcessEntry {
    /// Position of the originating device in the snapshot.
    pub gpu_index: usize,
    /// The resolved sample that device reported.
    pub process: GpuProcessInfo,
}

/// The entries one device contributes, in the device's own order.
pub open spec fn device_entries(gpu_index: usize, ps: Seq<GpuProcessInfo>) -> Seq<ProcessEntry> {
    ps.map(|i: int, p: GpuProcessInfo| ProcessEntry { gpu_index, process: p })
}

/// Every device's entries, devices in snapshot order.
pub open spec fn all_entries(gpus: Seq<GpuInfo>) -> Seq<ProcessEntry>
    decreases gpus.len(),
{
    if gpus.len() == 0 {
        Seq::empty()
    } else {
        all_entries(gpus.drop_last()) + device_entries(
            (gpus.len() - 1) as usize,
            gpus.last().processes@,
        )
    }
}

/// Descending by attributed GPU memory: an earlier entry never uses less.
pub open spec fn sorted_desc(s: Seq<ProcessEntry>) -> bool {
    forall|i: int, j: int|
        0 <= i <= j < s.len() ==> s[i].process.used_gpu_memory >= s[j].process.used_gpu_memory
}

/// Where a stable descending insertion puts `e`: after every entry with at
/// least as much memory.
pub open spec fn insert_pos(s: Seq<ProcessEntry>, e: ProcessEntry) -> int
    decreases s.len(),
{
    if s.len() > 0 && s[0].process.used_gpu_memory >= e.process.used_gpu_memory {
        1 + insert_pos(s.skip(1), e)
    } else {
        0
    }
}

/// `s` with `e` inserted at `insert_pos(s, e)`.
pub open spec fn insert_desc(s: Seq<ProcessEntry>, e: ProcessEntry) -> Seq<ProcessEntry>
    decreases s.len(),
{
    if s.len() > 0 && s[0].process.used_gpu_memory >= e.process.used_gpu_memory {
        seq![s[0]] + insert_desc(s.skip(1), e)
    } else {
        seq![e] + s
    }
}

/// Stable insertion sort, descending by GPU memory: entries are taken in
/// input order, so entries with equal memory keep their relative order.
pub open spec fn sort_desc(s: Seq<ProcessEntry>) -> Seq<ProcessEntry>
    decreases s.len(),
{
    if s.len() == 0 {
        Seq::empty()
    } else {
        insert_desc(sort_desc(s.drop_last()), s.last())
    }
}

/// The entries of `s` with exactly `mem` bytes of GPU memory, in order.
pub open spec fn entries_with_mem(s: Seq<ProcessEntry>, mem: u64) -> Seq<ProcessEntry> {
    s.filter(|e: ProcessEntry| e.process.used_gpu_memory == mem)
}

/// `insert_desc` splits `s` at `insert_pos`: everything before keeps at least
/// `e`'s memory, everything after strictly less than the entry at the split,
/// and the result is `s` with `e` inserted there.
proof fn lemma_insert_desc_split(s: Seq<ProcessEntry>, e: ProcessEntry)
    ensures
        0 <= insert_pos(s, e) <= s.len(),
        insert_desc(s, e) == s.insert(insert_pos(s, e), e),
        forall|k: int|
            0 <= k < insert_pos(s, e) ==> s[k].process.used_gpu_memory
                >= e.process.used_gpu_memory,
        insert_pos(s, e) < s.len() ==> s[insert_pos(s, e)].process.used_gpu_memory
            < e.process.used_gpu_memory,
    decreases s.len(),
{
    if s.len() > 0 && s[0].process.used_gpu_memory >= e.process.used_gpu_memory {
        lemma_insert_desc_split(s.skip(1), e);
        let p = insert_pos(s, e);
        assert(insert_desc(s, e) =~= s.insert(p, e));
        assert forall|k: int| 0 <= k < p implies s[k].process.used_gpu_memory
            >= e.process.used_gpu_memory by {
            if k > 0 {
                assert(s[k] == s.skip(1)[k - 1]);
            }
        }
        if p < s.len() {
            assert(s[p] == s.skip(1)[p - 1]);
        }
    } else {
        assert(insert_desc(s, e) =~= s.insert(0, e));
    }
}

/// Inserting into a sorted sequence keeps it sorted.
proof fn lemma_insert_desc_sorted(s: Seq<ProcessEntry>, e: ProcessEntry)
    requires
        sorted_desc(s),
    ensures
        sorted_desc(insert_desc(s, e)),
{
    lemma_insert_desc_split(s, e);
    let p = insert_pos(s, e);
    let r = insert_desc(s, e);
    assert forall|i: int, j: int| 0 <= i <= j < r.len() implies r[i].process.used_gpu_memory
        >= r[j].process.used_gpu_memory by {
        assert(r == s.insert(p, e));
        if i < p {
            assert(r[i] == s[i]);
        } else if i == p {
            assert(r[i] == e);
        } else {
            assert(r[i] == s[i - 1]);
        }
        if j < p {
            assert(r[j] == s[j]);
        } else if j == p {
            assert(r[j] == e);
        } else {
            assert(r[j] == s[j - 1]);
        }
    }
}

/// Insertion adds exactly `e` to the contents.
proof fn lemma_insert_desc_multiset(s: Seq<ProcessEntry>, e: ProcessEntry)
    ensures
        insert_desc(s, e).to_multiset() == s.to_multiset().insert(e),
{
    lemma_insert_desc_split(s, e);
    to_multiset_insert(s, insert_pos(s, e), e);
}

/// Sorting keeps exactly the input entries.
pub proof fn lemma_sort_desc_multiset(s: Seq<ProcessEntry>)
    ensures
        sort_desc(s).to_multiset() == s.to_multiset(),
    decreases s.len(),
{
    if s.len() == 0 {
        assert(sort_desc(s) =~= s);
    } else {
        let head = s.drop_last();
        let e = s.last();
        lemma_sort_desc_multiset(head);
        lemma_insert_desc_multiset(sort_desc(head), e);
        head.to_multiset_ensures();
        assert(head.push(e).to_multiset() == head.to_multiset().insert(e));
        assert(head.push(e) =~= s);
    }
}

/// The sort's result is sorted descending by GPU memory.
pub proof fn lemma_sort_desc_sorted(s: Seq<ProcessEntry>)
    ensures
        sorted_desc(sort_desc(s)),
    decreases s.len(),
{
    if s.len() > 0 {
        lemma_sort_desc_sorted(s.drop_last());
        lemma_insert_desc_sorted(sort_desc(s.drop_last()), s.last());
    }
}

/// Sorting keeps the length.
pub proof fn lemma_sort_desc_len(s: Seq<ProcessEntry>)
    ensures
        sort_desc(s).len() == s.len(),
{
    lemma_sort_desc_multiset(s);
    to_multiset_len(sort_desc(s));
    to_multiset_len(s);
}

/// Inserting into a sorted sequence appends `e` to the entries that share its
/// memory and leaves every other memory class unchanged.
proof fn lemma_insert_desc_filter(s: Seq<ProcessEntry>, e: ProcessEntry)
    requires
        sorted_desc(s),
    ensures
        forall|m: u64| #[trigger]
            entries_with_mem(insert_desc(s, e), m) == if m == e.process.used_gpu_memory {
                entries_with_mem(s, m).push(e)
            } else {
                entries_with_mem(s, m)
            },
{
    lemma_insert_desc_split(s, e);
    let p = insert_pos(s, e);
    let front = s.subrange(0, p);
    let back = s.subrange(p, s.len() as int);
    assert(s =~= front + back);
    assert(insert_desc(s, e) =~= front + (seq![e] + back));
    assert forall|m: u64| #[trigger] entries_with_mem(insert_desc(s, e), m) == if m
        == e.process.used_gpu_memory {
        entries_with_mem(s, m).push(e)
    } else {
        entries_with_mem(s, m)
    } by {
        let pred = |x: ProcessEntry| x.process.used_gpu_memory == m;
        Seq::filter_distributes_over_add(front, back, pred);
        Seq::filter_distributes_over_add(front, seq![e] + back, pred);
        Seq::filter_distributes_over_add(seq![e], back, pred);
        reveal_with_fuel(Seq::filter, 2);
        assert(seq![e].drop_last() =~= Seq::<ProcessEntry>::empty());
        if m == e.process.used_gpu_memory {
            assert(seq![e].filter(pred) =~= seq![e]);
            // everything after the split has strictly less memory than `e`
            assert forall|x: ProcessEntry| back.contains(x) implies !pred(x) by {
                let k = choose|k: int| 0 <= k < back.len() && back[k] == x;
                assert(back[k] == s[p + k]);
                if p < s.len() {
                    assert(s[p + k].process.used_gpu_memory <= s[p].process.used_gpu_memory);
                }
            }
            back.lemma_all_neg_filter_empty(pred);
            assert(back.filter(pred) =~= Seq::<ProcessEntry>::empty());
            assert(entries_with_mem(insert_desc(s, e), m) =~= entries_with_mem(s, m).push(e));
        } else {
            assert(seq![e].filter(pred) =~= Seq::<ProcessEntry>::empty());
            assert(entries_with_mem(insert_desc(s, e), m) =~= entries_with_mem(s, m));
        }
    }
}

/// Stability law: sorting never reorders entries that use the same amount of
/// GPU memory — within each memory class the input order is kept.
pub proof fn lemma_sort_desc_stable(s: Seq<ProcessEntry>)
    ensures
        forall|m: u64| #[trigger] entries_with_mem(sort_desc(s), m) == entries_with_mem(s, m),
    decreases s.len(),
{
    if s.len() == 0 {
        assert forall|m: u64| #[trigger] entries_with_mem(sort_desc(s), m) == entries_with_mem(
            s,
            m,
        ) by {
            reveal(Seq::filter);
        }
    } else {
        let head = s.drop_last();
        let e = s.last();
        lemma_sort_desc_stable(head);
        lemma_sort_desc_sorted(head);
        lemma_insert_desc_filter(sort_desc(head), e);
        assert forall|m: u64| #[trigger] entries_with_mem(sort_desc(s), m) == entries_with_mem(
            s,
            m,
        ) by {
            let pred = |x: ProcessEntry| x.process.used_gpu_memory == m;
            assert(s =~= head + seq![e]);
            Seq::filter_distributes_over_add(head, seq![e], pred);
            reveal_with_fuel(Seq::filter, 2);
            assert(seq![e].drop_last() =~= Seq::<ProcessEntry>::empty());
            if m == e.process.used_gpu_memory {
                assert(seq![e].filter(pred) =~= seq![e]);
                assert(entries_with_mem(s, m) =~= entries_with_mem(head, m).push(e));
            } else {
                assert(seq![e].filter(pred) =~= Seq::<ProcessEntry>::empty());
                assert(entries_with_mem(s, m) =~= entries_with_mem(head, m));
            }
        }
    }
}

/// If the scan stopped at `i`, then `i` is exactly the stable insertion
/// position.
proof fn lemma_insert_pos_is(s: Seq<ProcessEntry>, e: ProcessEntry, i: int)
    requires
        0 <= i <= s.len(),
        forall|k: int| 0 <= k < i ==> s[k].process.used_gpu_memory >= e.process.used_gpu_memory,
        i < s.len() ==> s[i].process.used_gpu_memory < e.process.used_gpu_memory,
    ensures
        insert_pos(s, e) == i,
    decreases s.len(),
{
    if s.len() > 0 && s[0].process.used_gpu_memory >= e.process.used_gpu_memory {
        assert forall|k: int| 0 <= k < i - 1 implies s.skip(1)[k].process.used_gpu_memory
            >= e.process.used_gpu_memory by {
            assert(s.skip(1)[k] == s[k + 1]);
        }
        if i - 1 < s.skip(1).len() {
            assert(s.skip(1)[i - 1] == s[i]);
        }
        lemma_insert_pos_is(s.skip(1), e, i - 1);
    }
}

/// Insert `e` into the sorted `result`, after every entry with at least as
/// much GPU memory.
fn insert_sorted(result: &mut Vec<ProcessEntry>, e: ProcessEntry)
    ensures
        final(result)@ == insert_desc(old(result)@, e),
{
    let mut i: usize = 0;
    while i < result.len() && result[i].process.used_gpu_memory >= e.process.used_gpu_memory
        invariant
            0 <= i <= result@.len(),
            forall|k: int|
                0 <= k < i ==> result@[k].process.used_gpu_memory >= e.process.used_gpu_memory,
            *result == *old(result),
        decreases result@.len() - i,
    {
        i += 1;
    }
    proof {
        lemma_insert_pos_is(result@, e, i as int);
        lemma_insert_desc_split(result@, e);
    }
    result.insert(i, e);
}

/// Merge every device's process list and sort it descending by GPU memory.
///
/// The result is exactly the stable descending sort of all devices' entries:
/// it is sorted (an earlier entry never uses less GPU memory than a later
/// one), it holds exactly the input entries, and entries with equal memory
/// keep their input order.
pub fn aggregate_processes(gpu_infos: &Vec<GpuInfo>) -> (r: Vec<ProcessEntry>)
    ensures
        r@ == sort_desc(all_entries(gpu_infos@)),
        sorted_desc(r@),
        r@.to_multiset() == all_entries(gpu_infos@).to_multiset(),
        r@.len() == all_entries(gpu_infos@).len(),
{
    let mut entries: Vec<ProcessEntry> = Vec::new();
    let mut gi: usize = 0;
    while gi < gpu_infos.len()
        invariant
            0 <= gi <= gpu_infos@.len(),
            entries@ == all_entries(gpu_infos@.subrange(0, gi as int)),
        decreases gpu_infos@.len() - gi,
    {
        let ghost done = gpu_infos@.subrange(0, gi as int);
        let mut pj: usize = 0;
        while pj < gpu_infos[gi].processes.len()
            invariant
                0 <= gi < gpu_infos@.len(),
                0 <= pj <= gpu_infos@[gi as int].processes@.len(),
                entries@ == all_entries(gpu_infos@.subrange(0, gi as int)) + device_entries(
                    gi,
                    gpu_infos@[gi as int].processes@.subrange(0, pj as int),
                ),
            decreases gpu_infos@[gi as int].processes@.len() - pj,
        {
            let p = gpu_infos[gi].processes[pj].duplicate();
            entries.push(ProcessEntry { gpu_index: gi, process: p });
            proof {
                assert(entries@ =~= all_entries(gpu_infos@.subrange(0, gi as int))
                    + device_entries(
                    gi,
                    gpu_infos@[gi as int].processes@.subrange(0, pj as int + 1),
                ));
            }
            pj += 1;
        }
        proof {
            let upto = gpu_infos@.subrange(0, gi as int + 1);
            assert(upto.drop_last() =~= gpu_infos@.subrange(0, gi as int));
            assert(gpu_infos@[gi as int].processes@.subrange(
                0,
                gpu_infos@[gi as int].processes@.len() as int,
            ) =~= gpu_infos@[gi as int].processes@);
            assert(entries@ =~= all_entries(upto));
        }
        gi += 1;
    }
    proof {
        assert(gpu_infos@.subrange(0, gpu_infos@.len() as int) =~= gpu_infos@);
    }
    let ghost unsorted = entries@;
    let mut result: Vec<ProcessEntry> = Vec::new();
    let ghost mut processed = Seq::<ProcessEntry>::empty();
    while entries.len() > 0
        invariant
            unsorted == processed + entries@,
            result@ == sort_desc(processed),
        decreases entries@.len(),
    {
        let ghost pre = entries@;
        let ghost before = processed;
        let e = entries.remove(0);
        insert_sorted(&mut result, e);
        proof {
            processed = before.push(e);
            assert(entries@ =~= pre.skip(1));
            assert(before + pre =~= processed + entries@);
            assert(processed.drop_last() =~= before);
            assert(sort_desc(processed) == insert_desc(
                sort_desc(processed.drop_last()),
                processed.last(),
            ));
            assert(result@ == sort_desc(processed));
        }
    }
    proof {
        assert(processed =~= unsorted);
        lemma_sort_desc_sorted(unsorted);
        lemma_sort_desc_multiset(unsorted);
        lemma_sort_desc_len(unsorted);
    }
    result
}

} // verus!
