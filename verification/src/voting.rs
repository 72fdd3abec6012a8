//! The vote cast / retract / elimination protocol.
//!
//! Both entry points run the lazy phase tick first, then apply the request
//! to the ticked state. A duplicate cast by the same voter and a retract
//! without a prior cast are neutral no-ops, not errors, so clients can retry
//! safely; the uniqueness of each `(entry, voter)` pair is the idempotency
//! backbone of the protocol.

use vstd::prelude::*;

use crate::engine::{
    check_game_end, phase_tick, spec_end_check_events, spec_end_check_state, spec_phase_event,
    spec_round_outcome, spec_tick, spec_tick_events, state_wf, votes_capped, RoomState, StateModel,
};
use crate::entry::{
    entries_view, entry_index, find_entry, has_entry, lemma_count_pos, lemma_count_update,
    lemma_entry_index_unique, pred_alive_ai, EntryModel,
};
use crate::events::{CastOk, GameEvent, RetractOk, VoteError};
use crate::policy::{spec_vote_threshold, vote_threshold};
use crate::room::{cfg_wf, spec_game_over_room, GameConfig, Room, RoomStatus, MAX_TIME};

verus! {

/// The vote threshold in force for a room state.
pub open spec fn spec_threshold_of(m: StateModel, cfg: GameConfig) -> int {
    spec_vote_threshold(
        m.room.online_count as int,
        cfg.vote_threshold_ratio as int,
        cfg.vote_min_threshold as int,
    )
}

/// An entry after one more vote.
pub open spec fn spec_voted_entry(e: EntryModel, voter: u64) -> EntryModel {
    EntryModel { vote_count: e.vote_count + 1, voters: e.voters.push(voter), ..e }
}

/// An entry eliminated at `now`.
pub open spec fn spec_eliminated_entry(e: EntryModel, now: i64) -> EntryModel {
    EntryModel { is_eliminated: true, eliminated_at: Some(now), ..e }
}

// ---------------------------------------------------------------------------
// Cast.
// ---------------------------------------------------------------------------

/// What a cast returns, evaluated against the already-ticked state: rejected
/// without an authenticated voter, a live entry, or the voting phase; a
/// neutral no-op when this voter already has a live vote on this entry;
/// otherwise applied, eliminating the entry when the new tally reaches the
/// threshold.
pub open spec fn spec_cast_result(
    m: StateModel,
    entry_id: u64,
    voter: Option<u64>,
    now: i64,
    cfg: GameConfig,
) -> Result<CastOk, VoteError> {
    if voter is None {
        Err(VoteError::Unauthorized)
    } else if !has_entry(m.entries, entry_id) {
        Err(VoteError::EntryNotFound)
    } else {
        let e = m.entries[entry_index(m.entries, entry_id)];
        if e.is_eliminated {
            Err(VoteError::EntryEliminated)
        } else if !(m.room.status is Voting) {
            Err(VoteError::NotVoting)
        } else if e.voters.contains(voter->0) {
            Ok(CastOk { applied: false, new_count: e.vote_count as i64, eliminated: false, end: None })
        } else {
            let eliminated = e.vote_count + 1 >= spec_threshold_of(m, cfg);
            Ok(
                CastOk {
                    applied: true,
                    new_count: (e.vote_count + 1) as i64,
                    eliminated,
                    end: if eliminated {
                        spec_round_outcome(spec_cast_mid(m, entry_id, voter->0, now, cfg).entries, cfg)
                    } else {
                        None
                    },
                },
            )
        }
    }
}

/// The state right after an applied cast that reached the threshold, before
/// the end-of-round evaluation: the entry is voted and eliminated and, when
/// it was an AI entry, the room's AI count drops by one.
pub open spec fn spec_cast_mid(
    m: StateModel,
    entry_id: u64,
    voter: u64,
    now: i64,
    cfg: GameConfig,
) -> StateModel {
    let k = entry_index(m.entries, entry_id);
    let e = m.entries[k];
    let e2 = spec_eliminated_entry(spec_voted_entry(e, voter), now);
    let room2 = Room {
        ai_count: (m.room.ai_count - if e.is_ai {
            1int
        } else {
            0int
        }) as i64,
        ..m.room
    };
    StateModel { room: room2, entries: m.entries.update(k, e2) }
}

/// The state after a cast, evaluated against the already-ticked state.
pub open spec fn spec_cast_state(
    m: StateModel,
    entry_id: u64,
    voter: Option<u64>,
    now: i64,
    cfg: GameConfig,
) -> StateModel {
    match spec_cast_result(m, entry_id, voter, now, cfg) {
        Err(_) => m,
        Ok(ok) => {
            if !ok.applied {
                m
            } else if !ok.eliminated {
                let k = entry_index(m.entries, entry_id);
                StateModel {
                    room: m.room,
                    entries: m.entries.update(k, spec_voted_entry(m.entries[k], voter->0)),
                }
            } else {
                spec_end_check_state(spec_cast_mid(m, entry_id, voter->0, now, cfg), cfg)
            }
        },
    }
}

/// The events of a cast, evaluated against the already-ticked state: the
/// updated tally and the owner notification on every applied cast, then on
/// an elimination the elimination itself, any end-of-round outcome, and the
/// phase update of a game that just ended.
pub open spec fn spec_cast_events(
    m: StateModel,
    entry_id: u64,
    voter: Option<u64>,
    now: i64,
    cfg: GameConfig,
) -> Seq<GameEvent> {
    match spec_cast_result(m, entry_id, voter, now, cfg) {
        Err(_) => Seq::empty(),
        Ok(ok) => {
            if !ok.applied {
                Seq::empty()
            } else {
                let k = entry_index(m.entries, entry_id);
                let base = seq![
                    GameEvent::VoteUpdate { entry_id, count: ok.new_count },
                    GameEvent::VoteReceived { entry_id, voter_id: voter->0 },
                ];
                if !ok.eliminated {
                    base
                } else {
                    let mid = spec_cast_mid(m, entry_id, voter->0, now, cfg);
                    let with_elim = base.push(
                        GameEvent::EntryEliminated { entry_id, is_ai: m.entries[k].is_ai },
                    );
                    let with_end = with_elim + spec_end_check_events(mid, cfg);
                    if spec_round_outcome(mid.entries, cfg) is Some {
                        with_end.push(spec_phase_event(spec_game_over_room(mid.room)))
                    } else {
                        with_end
                    }
                }
            }
        },
    }
}

/// Casts a vote by `voter` against `entry_id` at time `now`. Ticks the room
/// first; on success the vote is recorded at most once per `(entry, voter)`
/// pair, and an entry whose tally reaches the threshold in force is
/// eliminated, with the end-of-round evaluation run right away.
pub fn cast_vote(
    state: &mut RoomState,
    entry_id: u64,
    voter: Option<u64>,
    now: i64,
    cfg: &GameConfig,
) -> (r: (Result<CastOk, VoteError>, Vec<GameEvent>))
    requires
        state_wf(old(state)@),
        votes_capped(old(state)@),
        cfg_wf(*cfg),
        -MAX_TIME <= now <= MAX_TIME,
    ensures
        r.0 == spec_cast_result(spec_tick(old(state)@, now, *cfg), entry_id, voter, now, *cfg),
        final(state)@ == spec_cast_state(
            spec_tick(old(state)@, now, *cfg),
            entry_id,
            voter,
            now,
            *cfg,
        ),
        r.1@ == spec_tick_events(old(state)@, now, *cfg) + spec_cast_events(
            spec_tick(old(state)@, now, *cfg),
            entry_id,
            voter,
            now,
            *cfg,
        ),
        state_wf(final(state)@),
        // An entry is only ever eliminated with a tally at or above the
        // threshold in force at that moment.
        r.0 matches Ok(ok) ==> (ok.eliminated ==> ok.new_count >= spec_threshold_of(
            spec_tick(old(state)@, now, *cfg),
            *cfg,
        )),
{
    let ghost m0 = state@;
    let mut events = phase_tick(state, now, cfg);
    let ghost m1 = state@;
    let ghost tick_events = events@;
    let voter_id = match voter {
        Some(v) => v,
        None => {
            proof {
                assert(events@ =~= tick_events + spec_cast_events(m1, entry_id, voter, now, *cfg));
            }
            return (Err(VoteError::Unauthorized), events);
        },
    };
    let k = match find_entry(&state.entries, entry_id) {
        Some(k) => k,
        None => {
            proof {
                assert(events@ =~= tick_events + spec_cast_events(m1, entry_id, voter, now, *cfg));
            }
            return (Err(VoteError::EntryNotFound), events);
        },
    };
    proof {
        lemma_entry_index_unique(m1.entries, entry_id, k as int);
    }
    if state.entries[k].is_eliminated {
        proof {
            assert(events@ =~= tick_events + spec_cast_events(m1, entry_id, voter, now, *cfg));
        }
        return (Err(VoteError::EntryEliminated), events);
    }
    if !matches!(state.room.status, RoomStatus::Voting) {
        proof {
            assert(events@ =~= tick_events + spec_cast_events(m1, entry_id, voter, now, *cfg));
        }
        return (Err(VoteError::NotVoting), events);
    }
    let already = {
        let ent = &state.entries[k];
        contains_u64(&ent.voters, voter_id)
    };
    if already {
        let current = state.entries[k].vote_count;
        proof {
            assert(events@ =~= tick_events + spec_cast_events(m1, entry_id, voter, now, *cfg));
        }
        return (
            Ok(CastOk { applied: false, new_count: current, eliminated: false, end: None }),
            events,
        );
    }
    // Apply the vote.
    let threshold = vote_threshold(
        state.room.online_count,
        cfg.vote_threshold_ratio,
        cfg.vote_min_threshold,
    );
    proof {
        if state.entries@[k as int]@.is_ai {
            lemma_count_pos(m1.entries, pred_alive_ai(), k as int);
        }
    }
    let mut e = state.entries.remove(k);
    proof {
        assert(e@ == m1.entries[k as int]);
    }
    let is_ai = e.is_ai;
    e.vote_count = e.vote_count + 1;
    e.voters.push(voter_id);
    let new_count = e.vote_count;
    let will_eliminate = new_count >= threshold;
    if will_eliminate {
        e.is_eliminated = true;
        e.eliminated_at = Some(now);
    }
    let ghost new_entry = e@;
    state.entries.insert(k, e);
    proof {
        let old_e = m1.entries[k as int];
        lemma_push_keeps_no_duplicates(old_e.voters, voter_id);
        if will_eliminate {
            assert(new_entry =~= spec_eliminated_entry(spec_voted_entry(old_e, voter_id), now));
        } else {
            assert(new_entry =~= spec_voted_entry(old_e, voter_id));
        }
        assert(entries_view(state.entries) =~= m1.entries.update(k as int, new_entry));
        lemma_count_update(m1.entries, pred_alive_ai(), k as int, new_entry);
    }
    events.push(GameEvent::VoteUpdate { entry_id, count: new_count });
    events.push(GameEvent::VoteReceived { entry_id, voter_id });
    if !will_eliminate {
        proof {
            assert(state@ =~= spec_cast_state(m1, entry_id, voter, now, *cfg));
            assert(events@ =~= tick_events + spec_cast_events(m1, entry_id, voter, now, *cfg));
        }
        return (
            Ok(CastOk { applied: true, new_count, eliminated: false, end: None }),
            events,
        );
    }
    events.push(GameEvent::EntryEliminated { entry_id, is_ai });
    if is_ai {
        state.room.ai_count = state.room.ai_count - 1;
    }
    let ghost mid = spec_cast_mid(m1, entry_id, voter_id, now, *cfg);
    proof {
        assert(state@ =~= mid);
    }
    let end = check_game_end(state, cfg, &mut events);
    if end.is_some() {
        events.push(
            GameEvent::PhaseUpdate {
                status: state.room.status,
                voting_started_at: state.room.voting_started_at,
                voting_ends_at: state.room.voting_ends_at,
            },
        );
    }
    proof {
        assert(state@ =~= spec_cast_state(m1, entry_id, voter, now, *cfg));
        assert(events@ =~= tick_events + spec_cast_events(m1, entry_id, voter, now, *cfg));
    }
    (Ok(CastOk { applied: true, new_count, eliminated: true, end }), events)
}

// ---------------------------------------------------------------------------
// Retract.
// ---------------------------------------------------------------------------

/// The index of `voter` in a voter list; meaningful when the list contains
/// the voter and has no duplicates.
pub open spec fn spec_voter_index(s: Seq<u64>, v: u64) -> int {
    choose|i: int| 0 <= i < s.len() && s[i] == v
}

/// A voter list with one voter's vote removed.
pub open spec fn spec_remove_voter(s: Seq<u64>, v: u64) -> Seq<u64> {
    s.remove(spec_voter_index(s, v))
}

/// An entry after a retract by a voter with a live vote: the tally drops by
/// one, floored at zero, and the vote record disappears.
pub open spec fn spec_retracted_entry(e: EntryModel, voter: u64) -> EntryModel {
    EntryModel {
        vote_count: if e.vote_count >= 1 {
            e.vote_count - 1
        } else {
            0
        },
        voters: spec_remove_voter(e.voters, voter),
        ..e
    }
}

/// What a retract returns, evaluated against the already-ticked state: the
/// same rejections as a cast; a neutral no-op when this voter has no live
/// vote on this entry; otherwise the vote is removed.
pub open spec fn spec_retract_result(
    m: StateModel,
    entry_id: u64,
    voter: Option<u64>,
    cfg: GameConfig,
) -> Result<RetractOk, VoteError> {
    if voter is None {
        Err(VoteError::Unauthorized)
    } else if !has_entry(m.entries, entry_id) {
        Err(VoteError::EntryNotFound)
    } else {
        let e = m.entries[entry_index(m.entries, entry_id)];
        if e.is_eliminated {
            Err(VoteError::EntryEliminated)
        } else if !(m.room.status is Voting) {
            Err(VoteError::NotVoting)
        } else if !e.voters.contains(voter->0) {
            Ok(RetractOk { removed: false, new_count: e.vote_count as i64 })
        } else {
            Ok(
                RetractOk {
                    removed: true,
                    new_count: (if e.vote_count >= 1 {
                        e.vote_count - 1
                    } else {
                        0
                    }) as i64,
                },
            )
        }
    }
}

/// The state after a retract, evaluated against the already-ticked state.
pub open spec fn spec_retract_state(
    m: StateModel,
    entry_id: u64,
    voter: Option<u64>,
    cfg: GameConfig,
) -> StateModel {
    match spec_retract_result(m, entry_id, voter, cfg) {
        Err(_) => m,
        Ok(ok) => {
            if !ok.removed {
                m
            } else {
                let k = entry_index(m.entries, entry_id);
                StateModel {
                    room: m.room,
                    entries: m.entries.update(k, spec_retracted_entry(m.entries[k], voter->0)),
                }
            }
        },
    }
}

/// The events of a retract: the updated tally when a vote was removed.
pub open spec fn spec_retract_events(
    m: StateModel,
    entry_id: u64,
    voter: Option<u64>,
    cfg: GameConfig,
) -> Seq<GameEvent> {
    match spec_retract_result(m, entry_id, voter, cfg) {
        Ok(ok) => {
            if ok.removed {
                seq![GameEvent::VoteUpdate { entry_id, count: ok.new_count }]
            } else {
                Seq::empty()
            }
        },
        Err(_) => Seq::empty(),
    }
}

/// Retracts `voter`'s vote on `entry_id` at time `now`. Ticks the room
/// first. A retract without a prior cast is a neutral no-op that changes
/// nothing.
pub fn retract_vote(
    state: &mut RoomState,
    entry_id: u64,
    voter: Option<u64>,
    now: i64,
    cfg: &GameConfig,
) -> (r: (Result<RetractOk, VoteError>, Vec<GameEvent>))
    requires
        state_wf(old(state)@),
        cfg_wf(*cfg),
        -MAX_TIME <= now <= MAX_TIME,
    ensures
        r.0 == spec_retract_result(spec_tick(old(state)@, now, *cfg), entry_id, voter, *cfg),
        final(state)@ == spec_retract_state(
            spec_tick(old(state)@, now, *cfg),
            entry_id,
            voter,
            *cfg,
        ),
        r.1@ == spec_tick_events(old(state)@, now, *cfg) + spec_retract_events(
            spec_tick(old(state)@, now, *cfg),
            entry_id,
            voter,
            *cfg,
        ),
        state_wf(final(state)@),
{
    let ghost m0 = state@;
    let mut events = phase_tick(state, now, cfg);
    let ghost m1 = state@;
    let ghost tick_events = events@;
    let voter_id = match voter {
        Some(v) => v,
        None => {
            proof {
                assert(events@ =~= tick_events + spec_retract_events(m1, entry_id, voter, *cfg));
            }
            return (Err(VoteError::Unauthorized), events);
        },
    };
    let k = match find_entry(&state.entries, entry_id) {
        Some(k) => k,
        None => {
            proof {
                assert(events@ =~= tick_events + spec_retract_events(m1, entry_id, voter, *cfg));
            }
            return (Err(VoteError::EntryNotFound), events);
        },
    };
    proof {
        lemma_entry_index_unique(m1.entries, entry_id, k as int);
    }
    if state.entries[k].is_eliminated {
        proof {
            assert(events@ =~= tick_events + spec_retract_events(m1, entry_id, voter, *cfg));
        }
        return (Err(VoteError::EntryEliminated), events);
    }
    if !matches!(state.room.status, RoomStatus::Voting) {
        proof {
            assert(events@ =~= tick_events + spec_retract_events(m1, entry_id, voter, *cfg));
        }
        return (Err(VoteError::NotVoting), events);
    }
    let pos = {
        let ent = &state.entries[k];
        index_of_u64(&ent.voters, voter_id)
    };
    let pos = match pos {
        Some(p) => p,
        None => {
            let current = state.entries[k].vote_count;
            proof {
                assert(events@ =~= tick_events + spec_retract_events(m1, entry_id, voter, *cfg));
            }
            return (Ok(RetractOk { removed: false, new_count: current }), events);
        },
    };
    let mut e = state.entries.remove(k);
    proof {
        assert(e@ == m1.entries[k as int]);
        lemma_voter_index_unique(e.voters@, voter_id, pos as int);
        lemma_remove_keeps_no_duplicates(e.voters@, pos as int);
    }
    e.voters.remove(pos);
    e.vote_count = if e.vote_count >= 1 {
        e.vote_count - 1
    } else {
        0
    };
    let new_count = e.vote_count;
    let ghost new_entry = e@;
    state.entries.insert(k, e);
    proof {
        let old_e = m1.entries[k as int];
        assert(new_entry =~= spec_retracted_entry(old_e, voter_id));
        assert(entries_view(state.entries) =~= m1.entries.update(k as int, new_entry));
        lemma_count_update(m1.entries, pred_alive_ai(), k as int, new_entry);
    }
    events.push(GameEvent::VoteUpdate { entry_id, count: new_count });
    proof {
        assert(state@ =~= spec_retract_state(m1, entry_id, voter, *cfg));
        assert(events@ =~= tick_events + spec_retract_events(m1, entry_id, voter, *cfg));
    }
    (Ok(RetractOk { removed: true, new_count }), events)
}

// ---------------------------------------------------------------------------
// Small helpers.
// ---------------------------------------------------------------------------

/// Whether a voter list contains a voter.
pub fn contains_u64(v: &Vec<u64>, x: u64) -> (r: bool)
    ensures
        r == v@.contains(x),
{
    let n = v.len();
    let mut i: usize = 0;
    while i < n
        invariant
            n == v@.len(),
            i <= n,
            forall|j: int| 0 <= j < i ==> v@[j] != x,
        decreases n - i,
    {
        if v[i] == x {
            return true;
        }
        i += 1;
    }
    false
}

/// The position of a voter in a voter list.
pub fn index_of_u64(v: &Vec<u64>, x: u64) -> (r: Option<usize>)
    ensures
        match r {
            Some(p) => p < v@.len() && v@[p as int] == x,
            None => !v@.contains(x),
        },
{
    let n = v.len();
    let mut i: usize = 0;
    while i < n
        invariant
            n == v@.len(),
            i <= n,
            forall|j: int| 0 <= j < i ==> v@[j] != x,
        decreases n - i,
    {
        if v[i] == x {
            return Some(i);
        }
        i += 1;
    }
    None
}

/// Pushing a fresh element keeps a sequence duplicate-free.
pub proof fn lemma_push_keeps_no_duplicates(s: Seq<u64>, v: u64)
    requires
        s.no_duplicates(),
        !s.contains(v),
    ensures
        s.push(v).no_duplicates(),
{
    let t = s.push(v);
    assert forall|i: int, j: int|
        0 <= i < t.len() && 0 <= j < t.len() && i != j implies t[i] != t[j] by {
        if i < s.len() && j < s.len() {
            assert(t[i] == s[i] && t[j] == s[j]);
        } else if j == s.len() {
            assert(t[i] == s[i] && t[j] == v);
            assert(s[i] != v) by {
                if s[i] == v {
                    assert(s.contains(v));
                }
            }
        } else {
            assert(t[j] == s[j] && t[i] == v);
            assert(s[j] != v) by {
                if s[j] == v {
                    assert(s.contains(v));
                }
            }
        }
    }
}

/// In a duplicate-free list the position of a value is unique.
pub proof fn lemma_voter_index_unique(s: Seq<u64>, v: u64, i: int)
    requires
        s.no_duplicates(),
        0 <= i < s.len(),
        s[i] == v,
    ensures
        spec_voter_index(s, v) == i,
        s.contains(v),
{
    assert(s.contains(v));
    let j = spec_voter_index(s, v);
    assert(0 <= j < s.len() && s[j] == v);
    if i != j {
        assert(s[i] != s[j]);
    }
}

/// The vote threshold in force for a room, from the online count and the
/// configured ratio and floor.
pub fn current_vote_threshold(state: &RoomState, cfg: &GameConfig) -> (r: i64)
    requires
        state_wf(state@),
    ensures
        r == spec_threshold_of(state@, *cfg),
{
    vote_threshold(state.room.online_count, cfg.vote_threshold_ratio, cfg.vote_min_threshold)
}

/// The voters with a live vote on an entry, for the vote-update broadcast.
pub fn entry_voters(state: &RoomState, entry_id: u64) -> (r: Option<Vec<u64>>)
    requires
        state_wf(state@),
    ensures
        match r {
            Some(v) => has_entry(state@.entries, entry_id) && v@ == state@.entries[entry_index(
                state@.entries,
                entry_id,
            )].voters,
            None => !has_entry(state@.entries, entry_id),
        },
{
    let k = match find_entry(&state.entries, entry_id) {
        Some(k) => k,
        None => {
            return None;
        },
    };
    proof {
        lemma_entry_index_unique(state@.entries, entry_id, k as int);
    }
    let ent = &state.entries[k];
    let n = ent.voters.len();
    let mut out: Vec<u64> = Vec::new();
    let mut i: usize = 0;
    while i < n
        invariant
            n == ent.voters@.len(),
            i <= n,
            out@ == ent.voters@.take(i as int),
        decreases n - i,
    {
        out.push(ent.voters[i]);
        proof {
            assert(out@ =~= ent.voters@.take(i + 1));
        }
        i += 1;
    }
    proof {
        assert(ent.voters@.take(n as int) =~= ent.voters@);
    }
    Some(out)
}

/// Removing an element keeps a sequence duplicate-free and removes the
/// element for good.
pub proof fn lemma_remove_keeps_no_duplicates(s: Seq<u64>, i: int)
    requires
        s.no_duplicates(),
        0 <= i < s.len(),
    ensures
        s.remove(i).no_duplicates(),
        !s.remove(i).contains(s[i]),
        forall|w: u64| w != s[i] ==> (s.remove(i).contains(w) == s.contains(w)),
{
    let t = s.remove(i);
    assert forall|a: int, b: int|
        0 <= a < t.len() && 0 <= b < t.len() && a != b implies t[a] != t[b] by {
        let a0 = if a < i {
            a
        } else {
            a + 1
        };
        let b0 = if b < i {
            b
        } else {
            b + 1
        };
        assert(t[a] == s[a0] && t[b] == s[b0]);
    }
    assert forall|a: int| 0 <= a < t.len() implies t[a] != s[i] by {
        let a0 = if a < i {
            a
        } else {
            a + 1
        };
        assert(t[a] == s[a0] && a0 != i);
    }
    assert forall|w: u64| w != s[i] implies (t.contains(w) == s.contains(w)) by {
        if s.contains(w) {
            let a0 = choose|a0: int| 0 <= a0 < s.len() && s[a0] == w;
            let a = if a0 < i {
                a0
            } else {
                a0 - 1
            };
            assert(t[a] == s[a0]);
            assert(t.contains(w));
        }
        if t.contains(w) {
            let a = choose|a: int| 0 <= a < t.len() && t[a] == w;
            let a0 = if a < i {
                a
            } else {
                a + 1
            };
            assert(t[a] == s[a0]);
            assert(s.contains(w));
        }
    }
}

} // verus!
