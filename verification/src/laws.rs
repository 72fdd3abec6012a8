//! The laws of the engine, stated and proved once over the spec-level
//! transitions that every verified entry point is pinned to.

use vstd::prelude::*;

use crate::engine::{state_wf, StateModel};
use crate::entry::{entry_index, has_entry, lemma_entry_index_unique};
use crate::room::GameConfig;
use crate::single_player::{fish_index, run_wf, spec_catch_result, spec_catch_state, RunModel};
use crate::voting::{
    spec_cast_result, spec_cast_state, spec_remove_voter, spec_retract_result, spec_retract_state,
    spec_threshold_of, spec_voted_entry, lemma_push_keeps_no_duplicates, lemma_voter_index_unique,
};

verus! {

/// A room is in the voting phase exactly while both voting timestamps are
/// set.
pub proof fn lemma_voting_iff_timestamps(m: StateModel)
    requires
        state_wf(m),
    ensures
        (m.room.status is Voting) <==> (m.room.voting_started_at is Some
            && m.room.voting_ends_at is Some),
{
}

/// At most one live vote exists per `(entry, voter)` pair.
pub proof fn lemma_votes_unique(m: StateModel, i: int)
    requires
        state_wf(m),
        0 <= i < m.entries.len(),
    ensures
        m.entries[i].voters.no_duplicates(),
{
}

/// A cast only ever eliminates an entry whose new tally reached the
/// threshold in force at that moment.
pub proof fn lemma_elimination_needs_threshold(
    m: StateModel,
    entry_id: u64,
    voter: Option<u64>,
    now: i64,
    cfg: GameConfig,
)
    requires
        state_wf(m),
    ensures
        spec_cast_result(m, entry_id, voter, now, cfg) matches Ok(ok) ==> (ok.eliminated
            ==> ok.new_count >= spec_threshold_of(m, cfg)),
{
    if spec_cast_result(m, entry_id, voter, now, cfg) is Ok && voter is Some && has_entry(
        m.entries,
        entry_id,
    ) {
        let k = entry_index(m.entries, entry_id);
        assert(0 <= k < m.entries.len() && m.entries[k].id == entry_id);
    }
}

/// However many times one voter casts on one entry, the tally counts it
/// once: after an applied cast that did not eliminate the entry, the same
/// voter's next cast is a neutral no-op that changes nothing, and the tally
/// stands exactly one above its pre-cast value.
pub proof fn lemma_repeated_cast_counts_once(
    m: StateModel,
    entry_id: u64,
    voter: u64,
    now1: i64,
    now2: i64,
    cfg: GameConfig,
)
    requires
        state_wf(m),
        spec_cast_result(m, entry_id, Some(voter), now1, cfg) matches Ok(ok) && ok.applied
            && !ok.eliminated,
    ensures
        ({
            let m1 = spec_cast_state(m, entry_id, Some(voter), now1, cfg);
            let k = entry_index(m.entries, entry_id);
            &&& spec_cast_state(m1, entry_id, Some(voter), now2, cfg) == m1
            &&& spec_cast_result(m1, entry_id, Some(voter), now2, cfg) matches Ok(ok2)
                && !ok2.applied && ok2.new_count == m.entries[k].vote_count + 1
        }),
{
    let m1 = spec_cast_state(m, entry_id, Some(voter), now1, cfg);
    let k = entry_index(m.entries, entry_id);
    assert(has_entry(m.entries, entry_id));
    assert(0 <= k < m.entries.len() && m.entries[k].id == entry_id);
    let e1 = spec_voted_entry(m.entries[k], voter);
    assert(m1.entries == m.entries.update(k, e1));
    assert(m1.entries[k].id == entry_id);
    assert forall|i: int, j: int|
        0 <= i < j < m1.entries.len() implies (#[trigger] m1.entries[i]).id != (
    #[trigger] m1.entries[j]).id by {
        assert(m1.entries[i].id == m.entries[i].id);
        assert(m1.entries[j].id == m.entries[j].id);
    }
    lemma_entry_index_unique(m1.entries, entry_id, k);
    assert(m1.entries[k].voters.contains(voter)) by {
        assert(e1.voters[e1.voters.len() - 1] == voter);
    }
}

/// A retract by a voter without a live vote on the entry is a neutral
/// no-op: the room, the tally included, stays exactly as it was.
pub proof fn lemma_retract_without_vote_is_noop(
    m: StateModel,
    entry_id: u64,
    voter: u64,
    cfg: GameConfig,
)
    requires
        state_wf(m),
        has_entry(m.entries, entry_id),
        !m.entries[entry_index(m.entries, entry_id)].voters.contains(voter),
    ensures
        spec_retract_state(m, entry_id, Some(voter), cfg) == m,
        spec_retract_result(m, entry_id, Some(voter), cfg) matches Ok(ok) ==> (!ok.removed
            && ok.new_count == m.entries[entry_index(m.entries, entry_id)].vote_count),
{
}

/// A cast followed by a retract of the same voter returns the room to its
/// state before the cast, the tally included. (A cast that eliminated the
/// entry is out: its counters are frozen and the retract is rejected.)
pub proof fn lemma_cast_retract_round_trip(
    m: StateModel,
    entry_id: u64,
    voter: u64,
    now: i64,
    cfg: GameConfig,
)
    requires
        state_wf(m),
        spec_cast_result(m, entry_id, Some(voter), now, cfg) matches Ok(ok) && ok.applied
            && !ok.eliminated,
    ensures
        ({
            let m1 = spec_cast_state(m, entry_id, Some(voter), now, cfg);
            let k = entry_index(m.entries, entry_id);
            &&& spec_retract_result(m1, entry_id, Some(voter), cfg) matches Ok(ok2) && ok2.removed
                && ok2.new_count == m.entries[k].vote_count
            &&& spec_retract_state(m1, entry_id, Some(voter), cfg) == m
        }),
{
    let m1 = spec_cast_state(m, entry_id, Some(voter), now, cfg);
    let k = entry_index(m.entries, entry_id);
    assert(has_entry(m.entries, entry_id));
    assert(0 <= k < m.entries.len() && m.entries[k].id == entry_id);
    let e = m.entries[k];
    let e1 = spec_voted_entry(e, voter);
    assert(m1.entries == m.entries.update(k, e1));
    assert forall|i: int, j: int|
        0 <= i < j < m1.entries.len() implies (#[trigger] m1.entries[i]).id != (
    #[trigger] m1.entries[j]).id by {
        assert(m1.entries[i].id == m.entries[i].id);
        assert(m1.entries[j].id == m.entries[j].id);
    }
    lemma_entry_index_unique(m1.entries, entry_id, k);
    assert(e1.voters[e1.voters.len() - 1] == voter);
    assert(e1.voters.contains(voter));
    // The retract removes exactly the vote the cast inserted.
    lemma_push_keeps_no_duplicates(e.voters, voter);
    lemma_voter_index_unique(e1.voters, voter, e1.voters.len() - 1);
    assert(spec_remove_voter(e1.voters, voter) =~= e.voters);
    let back = crate::voting::spec_retracted_entry(e1, voter);
    assert(back =~= e);
    assert(spec_retract_state(m1, entry_id, Some(voter), cfg).entries =~= m.entries) by {
        assert(spec_retract_state(m1, entry_id, Some(voter), cfg).entries == m1.entries.update(
            k,
            back,
        ));
    }
    assert(spec_retract_state(m1, entry_id, Some(voter), cfg) =~= m);
}

/// `Gameover` is terminal: neither the tick nor a cast nor a retract moves
/// a finished room.
pub proof fn lemma_gameover_is_terminal(
    m: StateModel,
    entry_id: u64,
    voter: Option<u64>,
    now: i64,
    cfg: GameConfig,
)
    requires
        state_wf(m),
        m.room.status is Gameover,
    ensures
        crate::engine::spec_tick(m, now, cfg) == m,
        spec_cast_state(m, entry_id, voter, now, cfg) == m,
        spec_retract_state(m, entry_id, voter, cfg) == m,
{
}

/// Elimination freezes an entry's tally: the tick never changes the vote
/// count of an eliminated entry, even while it resets every live one.
pub proof fn lemma_tick_freezes_eliminated_tallies(
    m: StateModel,
    now: i64,
    cfg: GameConfig,
    i: int,
)
    requires
        state_wf(m),
        0 <= i < m.entries.len(),
        m.entries[i].is_eliminated,
    ensures
        crate::engine::spec_tick(m, now, cfg).entries.len() == m.entries.len(),
        crate::engine::spec_tick(m, now, cfg).entries[i].vote_count == m.entries[i].vote_count,
        crate::engine::spec_tick(m, now, cfg).entries[i].is_eliminated,
{
    let t = crate::engine::spec_tick(m, now, cfg);
    let reset = crate::engine::spec_reset_state(crate::engine::spec_end_check_state(m, cfg));
    assert(t.entries == m.entries || t.entries == reset.entries);
    if t.entries == reset.entries {
        assert(reset.entries[i] == crate::engine::spec_reset_entry(m.entries[i]));
    }
}

/// Two catches on the same uncaught card count once: when the first catch
/// leaves the run active and the deadline has not lapsed, the second catch
/// reports `caught_already` with no verdict, mutates nothing, and both
/// report the counters exactly one mutation produced.
pub proof fn lemma_second_catch_reports_caught_already(
    m: RunModel,
    session_id: u64,
    instance_id: u64,
    now1: i64,
    now2: i64,
)
    requires
        run_wf(m),
        spec_catch_result(m, session_id, instance_id, now1) matches Ok(ok) && ok.correct is Some
            && ok.status is Active,
        now2 <= m.ends_at,
    ensures
        ({
            let m1 = spec_catch_state(m, session_id, instance_id, now1);
            &&& spec_catch_result(m1, session_id, instance_id, now2) matches Ok(ok2)
                && ok2.caught_already && ok2.correct is None && ok2.mistakes
                == spec_catch_result(m, session_id, instance_id, now1)->Ok_0.mistakes
                && ok2.targets_found == spec_catch_result(
                m,
                session_id,
                instance_id,
                now1,
            )->Ok_0.targets_found
            &&& spec_catch_state(m1, session_id, instance_id, now2) == m1
        }),
{
    let m1 = spec_catch_state(m, session_id, instance_id, now1);
    let me = crate::single_player::spec_run_expire(m, now1);
    let k = fish_index(me.fish, instance_id);
    assert(0 <= k < me.fish.len() && me.fish[k].instance_id == instance_id);
    let caught = m1.fish[k];
    assert(m1.fish == me.fish.update(
        k,
        crate::single_player::RunFish { is_caught: true, caught_at: Some(now1), ..me.fish[k] },
    ));
    assert(m1.fish[k].instance_id == instance_id && m1.fish[k].is_caught);
    assert forall|a: int, b: int|
        0 <= a < b < m1.fish.len() implies (#[trigger] m1.fish[a]).instance_id != (
    #[trigger] m1.fish[b]).instance_id by {
        assert(m1.fish[a].instance_id == me.fish[a].instance_id);
        assert(m1.fish[b].instance_id == me.fish[b].instance_id);
    }
    crate::single_player::lemma_fish_index_unique(m1.fish, instance_id, k);
    assert(crate::single_player::has_fish(m1.fish, instance_id));
}

} // verus!
