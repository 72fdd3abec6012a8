//! Entries (drawings) and the counting machinery over them.
//!
//! An entry is a drawing in a room: human-submitted or AI-injected. Votes and
//! reports are held as the lists of the distinct voter and reporter ids, so a
//! `(entry, voter)` pair exists at most once by construction; the stored
//! counters mirror those lists. Once an entry is eliminated its counters are
//! frozen.

use vstd::multiset::Multiset;
use vstd::prelude::*;

use crate::policy::MAX_COUNT;

verus! {

/// Reports at which an entry is hidden.
pub const REPORT_HIDE_THRESHOLD: i64 = 3;

/// An entry row. Cosmetic display attributes (position, velocity, rotation)
/// are owned by the presentation layer and are not part of the engine state.
#[derive(Debug)]
pub struct Entry {
    pub id: u64,
    pub is_ai: bool,
    pub name: String,
    /// Submitter identity; absent for injected AI entries.
    pub session_id: Option<u64>,
    pub vote_count: i64,
    /// The distinct voters with a live vote on this entry.
    pub voters: Vec<u64>,
    pub is_eliminated: bool,
    pub eliminated_at: Option<i64>,
    pub report_count: i64,
    /// The distinct reporters of this entry.
    pub reporters: Vec<u64>,
    pub is_hidden: bool,
}

/// The mathematical model of an entry.
#[verifier::ext_equal]
pub ghost struct EntryModel {
    pub id: u64,
    pub is_ai: bool,
    pub name: Seq<char>,
    pub session_id: Option<u64>,
    pub vote_count: int,
    pub voters: Seq<u64>,
    pub is_eliminated: bool,
    pub eliminated_at: Option<i64>,
    pub report_count: int,
    pub reporters: Seq<u64>,
    pub is_hidden: bool,
}

impl View for Entry {
    type V = EntryModel;

    open spec fn view(&self) -> EntryModel {
        EntryModel {
            id: self.id,
            is_ai: self.is_ai,
            name: self.name@,
            session_id: self.session_id,
            vote_count: self.vote_count as int,
            voters: self.voters@,
            is_eliminated: self.is_eliminated,
            eliminated_at: self.eliminated_at,
            report_count: self.report_count as int,
            reporters: self.reporters@,
            is_hidden: self.is_hidden,
        }
    }
}

/// Well-formedness of a single entry: voters and reporters are distinct, the
/// counters mirror the lists (the vote counter only while the entry is
/// alive: elimination freezes it while a later round reset clears the vote
/// records), elimination is stamped, and enough reports hide the entry.
pub open spec fn entry_wf(e: EntryModel) -> bool {
    &&& e.voters.no_duplicates()
    &&& e.reporters.no_duplicates()
    &&& (!e.is_eliminated ==> e.vote_count == e.voters.len())
    &&& 0 <= e.vote_count <= MAX_COUNT
    &&& e.voters.len() <= MAX_COUNT
    &&& e.report_count == e.reporters.len()
    &&& e.reporters.len() <= MAX_COUNT
    &&& (e.is_eliminated ==> e.eliminated_at is Some)
    &&& (e.report_count >= REPORT_HIDE_THRESHOLD ==> e.is_hidden)
}

/// A fresh entry: no votes, no reports, alive and visible.
pub open spec fn spec_new_entry(
    id: u64,
    is_ai: bool,
    name: Seq<char>,
    session_id: Option<u64>,
) -> EntryModel {
    EntryModel {
        id,
        is_ai,
        name,
        session_id,
        vote_count: 0,
        voters: Seq::empty(),
        is_eliminated: false,
        eliminated_at: None,
        report_count: 0,
        reporters: Seq::empty(),
        is_hidden: false,
    }
}

impl Entry {
    /// Builds a fresh entry.
    pub fn new(id: u64, is_ai: bool, name: String, session_id: Option<u64>) -> (r: Entry)
        ensures
            r@ == spec_new_entry(id, is_ai, name@, session_id),
            entry_wf(r@),
    {
        Entry {
            id,
            is_ai,
            name,
            session_id,
            vote_count: 0,
            voters: Vec::new(),
            is_eliminated: false,
            eliminated_at: None,
            report_count: 0,
            reporters: Vec::new(),
            is_hidden: false,
        }
    }
}

// ---------------------------------------------------------------------------
// Counting entries that satisfy a predicate.
// ---------------------------------------------------------------------------

/// Number of elements of `s` satisfying `f`.
pub open spec fn count_where<T>(s: Seq<T>, f: spec_fn(T) -> bool) -> int
    decreases s.len(),
{
    if s.len() == 0 {
        0
    } else {
        count_where(s.drop_last(), f) + if f(s.last()) {
            1int
        } else {
            0int
        }
    }
}

pub open spec fn pred_alive_ai() -> spec_fn(EntryModel) -> bool {
    |e: EntryModel| e.is_ai && !e.is_eliminated
}

pub open spec fn pred_eliminated_ai() -> spec_fn(EntryModel) -> bool {
    |e: EntryModel| e.is_ai && e.is_eliminated
}

pub open spec fn pred_alive_human() -> spec_fn(EntryModel) -> bool {
    |e: EntryModel| !e.is_ai && !e.is_eliminated
}

pub open spec fn pred_eliminated_human() -> spec_fn(EntryModel) -> bool {
    |e: EntryModel| !e.is_ai && e.is_eliminated
}

pub open spec fn pred_alive_ai_visible() -> spec_fn(EntryModel) -> bool {
    |e: EntryModel| e.is_ai && !e.is_eliminated && !e.is_hidden
}

pub open spec fn pred_alive_human_visible() -> spec_fn(EntryModel) -> bool {
    |e: EntryModel| !e.is_ai && !e.is_eliminated && !e.is_hidden
}

pub proof fn lemma_count_bounds<T>(s: Seq<T>, f: spec_fn(T) -> bool)
    ensures
        0 <= count_where(s, f) <= s.len(),
    decreases s.len(),
{
    if s.len() > 0 {
        lemma_count_bounds(s.drop_last(), f);
    }
}

pub proof fn lemma_count_push<T>(s: Seq<T>, f: spec_fn(T) -> bool, e: T)
    ensures
        count_where(s.push(e), f) == count_where(s, f) + if f(e) {
            1int
        } else {
            0int
        },
{
    assert(s.push(e).drop_last() =~= s);
}

pub proof fn lemma_count_take_step<T>(s: Seq<T>, f: spec_fn(T) -> bool, i: int)
    requires
        0 <= i < s.len(),
    ensures
        count_where(s.take(i + 1), f) == count_where(s.take(i), f) + if f(s[i]) {
            1int
        } else {
            0int
        },
{
    assert(s.take(i + 1).drop_last() =~= s.take(i));
    assert(s.take(i + 1).last() == s[i]);
}

pub proof fn lemma_count_take_all<T>(s: Seq<T>, f: spec_fn(T) -> bool)
    ensures
        count_where(s.take(s.len() as int), f) == count_where(s, f),
{
    assert(s.take(s.len() as int) =~= s);
}

pub proof fn lemma_count_update<T>(s: Seq<T>, f: spec_fn(T) -> bool, i: int, e: T)
    requires
        0 <= i < s.len(),
    ensures
        count_where(s.update(i, e), f) == count_where(s, f) - (if f(s[i]) {
            1int
        } else {
            0int
        }) + (if f(e) {
            1int
        } else {
            0int
        }),
    decreases s.len(),
{
    let t = s.update(i, e);
    if i == s.len() - 1 {
        assert(t.drop_last() =~= s.drop_last());
        assert(t.last() == e);
    } else {
        assert(t.drop_last() =~= s.drop_last().update(i, e));
        assert(t.last() == s.last());
        lemma_count_update(s.drop_last(), f, i, e);
    }
}

/// A witness makes a count positive.
pub proof fn lemma_count_pos<T>(s: Seq<T>, f: spec_fn(T) -> bool, i: int)
    requires
        0 <= i < s.len(),
        f(s[i]),
    ensures
        count_where(s, f) >= 1,
    decreases s.len(),
{
    lemma_count_bounds(s.drop_last(), f);
    if i < s.len() - 1 {
        lemma_count_pos(s.drop_last(), f, i);
    }
}

/// Counts of two mutually exclusive predicates add up to the count of their
/// disjunction.
pub proof fn lemma_count_split<T>(
    s: Seq<T>,
    f: spec_fn(T) -> bool,
    g: spec_fn(T) -> bool,
    h: spec_fn(T) -> bool,
)
    requires
        forall|e: T| #[trigger] h(e) == (f(e) || g(e)),
        forall|e: T| !(#[trigger] f(e) && g(e)),
    ensures
        count_where(s, f) + count_where(s, g) == count_where(s, h),
    decreases s.len(),
{
    if s.len() > 0 {
        lemma_count_split(s.drop_last(), f, g, h);
        assert(h(s.last()) == (f(s.last()) || g(s.last())));
        assert(!(f(s.last()) && g(s.last())));
    }
}

/// Counting commutes with an element-wise rewrite that does not change the
/// predicate's verdict on any element of the sequence.
pub proof fn lemma_count_map<T>(s: Seq<T>, f: spec_fn(T) -> bool, g: spec_fn(T) -> T)
    requires
        forall|i: int| 0 <= i < s.len() ==> f(g(s[i])) == f(#[trigger] s[i]),
    ensures
        count_where(s.map_values(g), f) == count_where(s, f),
    decreases s.len(),
{
    if s.len() > 0 {
        assert(s.map_values(g).drop_last() =~= s.drop_last().map_values(g));
        assert(s.map_values(g).last() == g(s.last()));
        lemma_count_map(s.drop_last(), f, g);
    }
}

/// The count of a predicate only depends on the multiset of the elements.
pub proof fn lemma_count_is_multiset_filter_len<T>(s: Seq<T>, f: spec_fn(T) -> bool)
    ensures
        count_where(s, f) == s.to_multiset().filter(f).len(),
    decreases s.len(),
{
    broadcast use vstd::multiset::group_multiset_axioms;

    s.to_multiset_ensures();
    if s.len() == 0 {
        vstd::multiset::lemma_multiset_empty_len(s.to_multiset());
        assert(s.to_multiset().filter(f) =~= Multiset::<T>::empty());
    } else {
        let d = s.drop_last();
        let a = s.last();
        lemma_count_is_multiset_filter_len(d, f);
        d.to_multiset_ensures();
        assert(d.push(a) =~= s);
        assert(s.to_multiset() =~= d.to_multiset().insert(a));
        if f(a) {
            assert(s.to_multiset().filter(f) =~= d.to_multiset().filter(f).insert(a));
            vstd::multiset::lemma_insert_len(d.to_multiset().filter(f), a);
        } else {
            assert(s.to_multiset().filter(f) =~= d.to_multiset().filter(f));
        }
    }
}

/// Sequences with the same multiset of elements agree on every count.
pub proof fn lemma_count_permutation<T>(s1: Seq<T>, s2: Seq<T>, f: spec_fn(T) -> bool)
    requires
        s1.to_multiset() == s2.to_multiset(),
    ensures
        count_where(s1, f) == count_where(s2, f),
{
    lemma_count_is_multiset_filter_len(s1, f);
    lemma_count_is_multiset_filter_len(s2, f);
}

// ---------------------------------------------------------------------------
// Locating an entry by id.
// ---------------------------------------------------------------------------

pub open spec fn has_entry(s: Seq<EntryModel>, id: u64) -> bool {
    exists|i: int| 0 <= i < s.len() && s[i].id == id
}

/// The index of the entry with the given id; meaningful when `has_entry`
/// holds and the ids of `s` are distinct.
pub open spec fn entry_index(s: Seq<EntryModel>, id: u64) -> int {
    choose|i: int| 0 <= i < s.len() && s[i].id == id
}

/// Entry ids are pairwise distinct.
pub open spec fn entry_ids_distinct(s: Seq<EntryModel>) -> bool {
    forall|i: int, j: int| 0 <= i < j < s.len() ==> (#[trigger] s[i]).id != (#[trigger] s[j]).id
}

pub proof fn lemma_entry_index_unique(s: Seq<EntryModel>, id: u64, i: int)
    requires
        entry_ids_distinct(s),
        0 <= i < s.len(),
        s[i].id == id,
    ensures
        entry_index(s, id) == i,
        has_entry(s, id),
{
    assert(has_entry(s, id));
    let j = entry_index(s, id);
    if i < j {
        assert(s[i].id != s[j].id);
    } else if j < i {
        assert(s[j].id != s[i].id);
    }
}

/// The view of a vector of entries.
pub open spec fn entries_view(entries: Vec<Entry>) -> Seq<EntryModel> {
    entries@.map_values(|e: Entry| e@)
}

/// Finds the position of the entry with the given id.
pub fn find_entry(entries: &Vec<Entry>, id: u64) -> (r: Option<usize>)
    ensures
        match r {
            Some(k) => k < entries@.len() && entries_view(*entries)[k as int].id == id,
            None => !has_entry(entries_view(*entries), id),
        },
{
    let ghost vm = entries_view(*entries);
    let n = entries.len();
    let mut i: usize = 0;
    while i < n
        invariant
            n == entries@.len(),
            i <= n,
            vm == entries_view(*entries),
            forall|j: int| 0 <= j < i ==> vm[j].id != id,
        decreases n - i,
    {
        if entries[i].id == id {
            assert(vm[i as int].id == id);
            return Some(i);
        }
        i += 1;
    }
    assert forall|j: int| 0 <= j < vm.len() implies vm[j].id != id by {}
    None
}

// ---------------------------------------------------------------------------
// Listing the visible entries.
// ---------------------------------------------------------------------------

/// The ids of the entries a room listing shows: alive and not hidden, in
/// insertion order.
pub open spec fn visible_ids(s: Seq<EntryModel>) -> Seq<u64>
    decreases s.len(),
{
    if s.len() == 0 {
        Seq::empty()
    } else {
        let rest = visible_ids(s.drop_last());
        if !s.last().is_eliminated && !s.last().is_hidden {
            rest.push(s.last().id)
        } else {
            rest
        }
    }
}

proof fn lemma_visible_ids_take_step(s: Seq<EntryModel>, i: int)
    requires
        0 <= i < s.len(),
    ensures
        visible_ids(s.take(i + 1)) == if !s[i].is_eliminated && !s[i].is_hidden {
            visible_ids(s.take(i)).push(s[i].id)
        } else {
            visible_ids(s.take(i))
        },
{
    assert(s.take(i + 1).drop_last() =~= s.take(i));
    assert(s.take(i + 1).last() == s[i]);
}

/// Lists the ids of the entries that are alive and not hidden, in order.
pub fn visible_entry_ids(entries: &Vec<Entry>) -> (r: Vec<u64>)
    ensures
        r@ == visible_ids(entries_view(*entries)),
{
    let ghost vm = entries_view(*entries);
    let n = entries.len();
    let mut r: Vec<u64> = Vec::new();
    let mut i: usize = 0;
    while i < n
        invariant
            n == entries@.len(),
            n == vm.len(),
            i <= n,
            vm == entries_view(*entries),
            r@ == visible_ids(vm.take(i as int)),
        decreases n - i,
    {
        proof {
            lemma_visible_ids_take_step(vm, i as int);
        }
        let e = &entries[i];
        assert(e@ == vm[i as int]);
        if !e.is_eliminated && !e.is_hidden {
            r.push(e.id);
        }
        i += 1;
    }
    proof {
        assert(vm.take(vm.len() as int) =~= vm);
    }
    r
}

// ---------------------------------------------------------------------------
// Live statistics over a room's entries.
// ---------------------------------------------------------------------------

/// Alive/eliminated counts split by authorship, as end-of-round evaluation
/// reads them (hidden entries included).
#[derive(Clone, Copy, Debug, PartialEq, Eq, Structural)]
pub struct RoomStats {
    pub ai_alive: i64,
    pub ai_eliminated: i64,
    pub human_alive: i64,
    pub human_eliminated: i64,
}

/// Counts every entry, hidden ones included.
pub fn room_stats(entries: &Vec<Entry>) -> (r: RoomStats)
    requires
        entries@.len() <= MAX_COUNT,
    ensures
        r.ai_alive == count_where(entries_view(*entries), pred_alive_ai()),
        r.ai_eliminated == count_where(entries_view(*entries), pred_eliminated_ai()),
        r.human_alive == count_where(entries_view(*entries), pred_alive_human()),
        r.human_eliminated == count_where(entries_view(*entries), pred_eliminated_human()),
{
    let ghost vm = entries_view(*entries);
    let n = entries.len();
    let mut ai_alive: i64 = 0;
    let mut ai_eliminated: i64 = 0;
    let mut human_alive: i64 = 0;
    let mut human_eliminated: i64 = 0;
    let mut i: usize = 0;
    while i < n
        invariant
            n == entries@.len(),
            n == vm.len(),
            vm.len() <= MAX_COUNT,
            i <= n,
            vm == entries_view(*entries),
            ai_alive == count_where(vm.take(i as int), pred_alive_ai()),
            ai_eliminated == count_where(vm.take(i as int), pred_eliminated_ai()),
            human_alive == count_where(vm.take(i as int), pred_alive_human()),
            human_eliminated == count_where(vm.take(i as int), pred_eliminated_human()),
        decreases n - i,
    {
        proof {
            lemma_count_take_step(vm, pred_alive_ai(), i as int);
            lemma_count_take_step(vm, pred_eliminated_ai(), i as int);
            lemma_count_take_step(vm, pred_alive_human(), i as int);
            lemma_count_take_step(vm, pred_eliminated_human(), i as int);
            lemma_count_bounds(vm.take(i as int), pred_alive_ai());
            lemma_count_bounds(vm.take(i as int), pred_eliminated_ai());
            lemma_count_bounds(vm.take(i as int), pred_alive_human());
            lemma_count_bounds(vm.take(i as int), pred_eliminated_human());
        }
        let e = &entries[i];
        assert(e@ == vm[i as int]);
        if e.is_ai {
            if e.is_eliminated {
                ai_eliminated += 1;
            } else {
                ai_alive += 1;
            }
        } else {
            if e.is_eliminated {
                human_eliminated += 1;
            } else {
                human_alive += 1;
            }
        }
        i += 1;
    }
    proof {
        lemma_count_take_all(vm, pred_alive_ai());
        lemma_count_take_all(vm, pred_eliminated_ai());
        lemma_count_take_all(vm, pred_alive_human());
        lemma_count_take_all(vm, pred_eliminated_human());
    }
    RoomStats { ai_alive, ai_eliminated, human_alive, human_eliminated }
}

/// Counts only entries that are not hidden, as the phase-advance check reads
/// them.
pub fn visible_alive_stats(entries: &Vec<Entry>) -> (r: (i64, i64))
    requires
        entries@.len() <= MAX_COUNT,
    ensures
        r.0 == count_where(entries_view(*entries), pred_alive_ai_visible()),
        r.1 == count_where(entries_view(*entries), pred_alive_human_visible()),
{
    let ghost vm = entries_view(*entries);
    let n = entries.len();
    let mut ai_alive: i64 = 0;
    let mut human_alive: i64 = 0;
    let mut i: usize = 0;
    while i < n
        invariant
            n == entries@.len(),
            n == vm.len(),
            vm.len() <= MAX_COUNT,
            i <= n,
            vm == entries_view(*entries),
            ai_alive == count_where(vm.take(i as int), pred_alive_ai_visible()),
            human_alive == count_where(vm.take(i as int), pred_alive_human_visible()),
        decreases n - i,
    {
        proof {
            lemma_count_take_step(vm, pred_alive_ai_visible(), i as int);
            lemma_count_take_step(vm, pred_alive_human_visible(), i as int);
            lemma_count_bounds(vm.take(i as int), pred_alive_ai_visible());
            lemma_count_bounds(vm.take(i as int), pred_alive_human_visible());
        }
        let e = &entries[i];
        assert(e@ == vm[i as int]);
        if !e.is_eliminated && !e.is_hidden {
            if e.is_ai {
                ai_alive += 1;
            } else {
                human_alive += 1;
            }
        }
        i += 1;
    }
    proof {
        lemma_count_take_all(vm, pred_alive_ai_visible());
        lemma_count_take_all(vm, pred_alive_human_visible());
    }
    (ai_alive, human_alive)
}

} // verus!
