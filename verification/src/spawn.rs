//! The spawn selector: picks the next AI-authored entry to inject.
//!
//! The first few AI spawns of a room come from the fixed preset pool,
//! load-balanced by a global, cross-room usage counter: the selector picks
//! uniformly at random among the preset entries whose usage is minimal.
//! Later spawns prefer a per-room queue fed by the external generation
//! pipeline, falling back to the preset pool when the queue is empty. The
//! usage counters live in the cache store and are read and incremented by
//! the caller; the selection itself is pure.

use vstd::prelude::*;

use crate::random::pick_index;

verus! {

/// AI spawns per room taken from the preset pool before the generation
/// queue is consulted.
pub const PRESET_PHASE_SPAWNS: i64 = 5;

/// Where the next AI entry should come from.
#[derive(Clone, Copy, Debug, PartialEq, Eq, Structural)]
pub enum SpawnSource {
    /// Pick from the preset pool.
    Preset,
    /// Dequeue one externally generated entry.
    Queue,
}

/// Where the `ai_index`-th AI entry of a room comes from: the preset pool
/// for the first `PRESET_PHASE_SPAWNS` spawns, then the generation queue
/// when it has an item, with the preset pool as the fallback.
pub open spec fn spec_spawn_source(ai_index: i64, queue_has_item: bool) -> SpawnSource {
    if ai_index <= PRESET_PHASE_SPAWNS {
        SpawnSource::Preset
    } else if queue_has_item {
        SpawnSource::Queue
    } else {
        SpawnSource::Preset
    }
}

/// Decides the source of the `ai_index`-th AI entry of a room.
pub fn spawn_source(ai_index: i64, queue_has_item: bool) -> (r: SpawnSource)
    ensures
        r == spec_spawn_source(ai_index, queue_has_item),
{
    if ai_index <= PRESET_PHASE_SPAWNS {
        SpawnSource::Preset
    } else if queue_has_item {
        SpawnSource::Queue
    } else {
        SpawnSource::Preset
    }
}

/// The usage count the store holds for a preset id: the value of its pair,
/// or zero without one.
pub open spec fn spec_usage_of(pairs: Seq<(u8, u64)>, id: int) -> u64 {
    if exists|i: int| 0 <= i < pairs.len() && (#[trigger] pairs[i]).0 == id {
        pairs[choose|i: int| 0 <= i < pairs.len() && (#[trigger] pairs[i]).0 == id].1
    } else {
        0
    }
}

/// Turns the `(preset id, usage)` pairs read from the cache store into a
/// dense usage table over the ids `0 .. n`, with zero for an id the store
/// has no counter for.
pub fn usage_counts_from_pairs(pairs: &Vec<(u8, u64)>, n: usize) -> (r: Vec<u64>)
    requires
        forall|i: int, j: int|
            0 <= i < j < pairs@.len() ==> (#[trigger] pairs@[i]).0 != (#[trigger] pairs@[j]).0,
    ensures
        r@.len() == n,
        forall|id: int| 0 <= id < n ==> #[trigger] r@[id] == spec_usage_of(pairs@, id),
{
    let mut r: Vec<u64> = Vec::new();
    let mut id: usize = 0;
    while id < n
        invariant
            id <= n,
            r@.len() == id,
            forall|i: int, j: int|
                0 <= i < j < pairs@.len() ==> (#[trigger] pairs@[i]).0 != (#[trigger] pairs@[j]).0,
            forall|d: int| 0 <= d < id ==> #[trigger] r@[d] == spec_usage_of(pairs@, d),
        decreases n - id,
    {
        let mut found: u64 = 0;
        let mut i: usize = 0;
        let m = pairs.len();
        let mut hit = false;
        while i < m
            invariant
                m == pairs@.len(),
                i <= m,
                forall|a: int, b: int|
                    0 <= a < b < pairs@.len() ==> (#[trigger] pairs@[a]).0 != (
                    #[trigger] pairs@[b]).0,
                !hit ==> found == 0 && forall|a: int|
                    0 <= a < i ==> (#[trigger] pairs@[a]).0 != id as int,
                hit ==> exists|a: int|
                    0 <= a < pairs@.len() && (#[trigger] pairs@[a]).0 == id as int && pairs@[a].1
                        == found,
            decreases m - i,
        {
            if !hit && pairs[i].0 as usize == id {
                found = pairs[i].1;
                hit = true;
            }
            i += 1;
        }
        proof {
            if hit {
                let a = choose|a: int|
                    0 <= a < pairs@.len() && (#[trigger] pairs@[a]).0 == id as int && pairs@[a].1
                        == found;
                assert(exists|i: int|
                    0 <= i < pairs@.len() && (#[trigger] pairs@[i]).0 == id as int) by {
                    assert(pairs@[a].0 == id as int);
                }
                let b = choose|i: int|
                    0 <= i < pairs@.len() && (#[trigger] pairs@[i]).0 == id as int;
                if a != b {
                    if a < b {
                        assert(pairs@[a].0 != pairs@[b].0);
                    } else {
                        assert(pairs@[b].0 != pairs@[a].0);
                    }
                }
                assert(found == spec_usage_of(pairs@, id as int));
            } else {
                assert(!exists|i: int|
                    0 <= i < pairs@.len() && (#[trigger] pairs@[i]).0 == id as int);
                assert(found == spec_usage_of(pairs@, id as int));
            }
        }
        r.push(found);
        id += 1;
    }
    r
}

/// Whether `usage[id]` is minimal over the whole table.
pub open spec fn is_least_used(usage: Seq<u64>, id: int) -> bool {
    &&& 0 <= id < usage.len()
    &&& forall|j: int| 0 <= j < usage.len() ==> usage[id] <= #[trigger] usage[j]
}

/// Picks a preset entry uniformly at random among those whose global usage
/// count is minimal, load-balancing the fixed pool over time.
pub fn select_preset_fish(usage: &Vec<u64>) -> (r: usize)
    requires
        1 <= usage@.len(),
    ensures
        is_least_used(usage@, r as int),
{
    let n = usage.len();
    let mut min: u64 = usage[0];
    let mut i: usize = 1;
    while i < n
        invariant
            n == usage@.len(),
            1 <= i <= n,
            exists|j: int| 0 <= j < i && usage@[j] == min,
            forall|j: int| 0 <= j < i ==> min <= #[trigger] usage@[j],
        decreases n - i,
    {
        if usage[i] < min {
            min = usage[i];
        }
        i += 1;
    }
    let mut least: Vec<usize> = Vec::new();
    let mut i: usize = 0;
    while i < n
        invariant
            n == usage@.len(),
            i <= n,
            forall|k: int| 0 <= k < least@.len() ==> is_least_used(usage@, (#[trigger] least@[k]) as int),
            forall|j: int| 0 <= j < n ==> min <= #[trigger] usage@[j],
            exists|j: int| 0 <= j < n && usage@[j] == min,
            forall|j: int| 0 <= j < i && usage@[j] == min ==> least@.contains(j as usize),
        decreases n - i,
    {
        if usage[i] == min {
            let ghost before = least@;
            least.push(i);
            proof {
                assert forall|j: int| 0 <= j < i + 1 && usage@[j] == min implies least@.contains(
                    j as usize,
                ) by {
                    if j < i {
                        let p = choose|p: int| 0 <= p < before.len() && before[p] == j as usize;
                        assert(least@[p] == j as usize);
                    } else {
                        assert(least@[least@.len() - 1] == j as usize);
                    }
                }
            }
        }
        i += 1;
    }
    proof {
        let j = choose|j: int| 0 <= j < n && usage@[j] == min;
        assert(least@.contains(j as usize));
        assert(least@.len() >= 1) by {
            let p = choose|p: int| 0 <= p < least@.len() && least@[p] == j as usize;
        }
    }
    let pick = pick_index(least.len());
    least[pick]
}

/// Generates a room code: six characters from an unambiguous alphabet.
pub fn generate_room_code() -> (r: String)
    ensures
        r@.len() == 6,
        forall|i: int| 0 <= i < r@.len() ==> "ABCDEFGHJKLMNPQRSTUVWXYZ23456789"@.contains(
            #[trigger] r@[i],
        ),
{
    let alphabet = "ABCDEFGHJKLMNPQRSTUVWXYZ23456789";
    proof {
        reveal_strlit("ABCDEFGHJKLMNPQRSTUVWXYZ23456789");
    }
    let mut code = String::new();
    let mut i: usize = 0;
    while i < 6
        invariant
            i <= 6,
            code@.len() == i,
            alphabet@ =~= "ABCDEFGHJKLMNPQRSTUVWXYZ23456789"@,
            alphabet@.len() == 32,
            forall|j: int| 0 <= j < code@.len() ==> alphabet@.contains(#[trigger] code@[j]),
        decreases 6 - i,
    {
        let k = pick_index(32);
        let ch = alphabet.substring_char(k, k + 1);
        code.append(ch);
        proof {
            assert(ch@[0] == alphabet@[k as int]);
            assert(alphabet@.contains(alphabet@[k as int]));
        }
        i += 1;
    }
    code
}

} // verus!
