//! Plain data carried by a device snapshot, as far as the reporting core
//! reads it. The snapshot collector itself measures the machine and lives
//! outside this library; these records hold the values it hands over.

use vstd::prelude::*;
use vstd::seq_lib::group_to_multiset_ensures;

verus! {

/// How many process rows one snapshot keeps, counted from the heaviest
/// memory user down.
pub const PROCESS_ROWS_KEPT: usize = 20;

/// One process row reduced to the plain values the selection logic reads:
/// its memory use and its position in the collector's raw listing, so the
/// caller can rejoin the selected rows with the rest of their data.
#[derive(Clone, Copy, PartialEq, Eq, Structural, Debug)]
pub struct ProcessKey {
    pub memory: u64,
    pub index: usize,
}

/// The rows of `s` are arranged by descending memory use.
pub open spec fn sorted_desc(s: Seq<ProcessKey>) -> bool {
    forall|a: int, b: int| 0 <= a <= b < s.len() ==> s[a].memory >= s[b].memory
}

/// How many rows the selection keeps out of `total`.
pub open spec fn rows_kept(total: nat) -> nat {
    if total <= PROCESS_ROWS_KEPT {
        total
    } else {
        PROCESS_ROWS_KEPT as nat
    }
}

/// Arrange the rows by descending memory use and keep the first
/// `PROCESS_ROWS_KEPT` of them: the result is the cut-off prefix of a
/// descending rearrangement of the whole input, so no dropped row uses
/// more memory than any kept one.
pub fn top_processes_by_memory(keys: &Vec<ProcessKey>) -> (r: Vec<ProcessKey>)
    ensures
        r@.len() == rows_kept(keys@.len()),
        sorted_desc(r@),
        exists|s: Seq<ProcessKey>|
            {
                &&& s.to_multiset() == keys@.to_multiset()
                &&& sorted_desc(s)
                &&& r@ == s.take(rows_kept(keys@.len()) as int)
            },
{
    let mut sorted: Vec<ProcessKey> = Vec::new();
    let n: usize = keys.len();
    let mut i: usize = 0;
    proof {
        assert(sorted@ =~= keys@.take(0));
    }
    while i < n
        invariant
            n == keys@.len(),
            i <= n,
            sorted@.len() == i,
            sorted_desc(sorted@),
            sorted@.to_multiset() == keys@.take(i as int).to_multiset(),
        decreases n - i,
    {
        let key = keys[i];
        let mut pos: usize = 0;
        while pos < sorted.len() && sorted[pos].memory >= key.memory
            invariant
                pos <= sorted@.len(),
                forall|k: int| 0 <= k < pos ==> sorted@[k].memory >= key.memory,
            decreases sorted@.len() - pos,
        {
            pos = pos + 1;
        }
        let ghost prev = sorted@;
        sorted.insert(pos, key);
        proof {
            broadcast use group_to_multiset_ensures;

            let t = sorted@;
            assert(t.remove(pos as int) =~= prev);
            assert(t[pos as int] == key);
            assert(t.to_multiset().remove(key) =~= prev.to_multiset());
            assert(t.contains(key));
            assert(t.to_multiset() =~= prev.to_multiset().insert(key));
            assert(keys@.take(i + 1) =~= keys@.take(i as int).push(keys@[i as int]));
        }
        i = i + 1;
    }
    proof {
        assert(keys@.take(n as int) =~= keys@);
    }
    let ghost whole = sorted@;
    if sorted.len() > PROCESS_ROWS_KEPT {
        sorted.truncate(PROCESS_ROWS_KEPT);
    }
    proof {
        assert(sorted@ =~= whole.take(rows_kept(keys@.len()) as int));
    }
    sorted
}

/// Capacity figures of one disk volume at snapshot time.
pub struct DiskInfo {
    pub name: String,
    pub mount_point: String,
    pub total_space: u64,
    pub available_space: u64,
}

/// Cumulative traffic counters of one network interface at snapshot time.
pub struct NetworkInfo {
    pub name: String,
    pub received: u64,
    pub transmitted: u64,
}

} // verus!
