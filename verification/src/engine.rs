//! The room game-state engine: state model, invariant, end-of-round
//! evaluation and the time-driven phase tick.
//!
//! There is no background scheduler: the tick is evaluated lazily at the
//! start of every join, vote-cast and vote-retract request, with the caller
//! supplying the current time. Every operation is a pure transition on the
//! in-memory room state; the storage layer around the engine persists the
//! state and serializes concurrent requests.

use vstd::prelude::*;

use crate::entry::{
    count_where, entries_view, entry_ids_distinct, entry_wf, lemma_count_bounds, lemma_count_map,
    lemma_count_split, pred_alive_ai, pred_alive_ai_visible, pred_alive_human,
    pred_alive_human_visible, pred_eliminated_ai, pred_eliminated_human, room_stats,
    visible_alive_stats, Entry, EntryModel,
};
use crate::events::{EndReason, GameEvent};
use crate::policy::{
    ai_overflow, human_eliminated_limit, min_human_survive, spec_ai_overflow,
    spec_human_eliminated_limit, spec_min_human_survive, MAX_COUNT,
};
use crate::room::{
    cfg_wf, room_wf, spec_game_over_room, spec_new_room, spec_start_voting_room,
    spec_submit_deadline, GameConfig, Room, RoomStatus, MAX_TIME, MIN_SUBMIT_MILLIS,
    MIN_VOTING_MILLIS,
};

verus! {

/// The full engine state of one room: the room row and its entries.
#[derive(Debug)]
pub struct RoomState {
    pub room: Room,
    pub entries: Vec<Entry>,
}

/// The mathematical model of a room's state.
#[verifier::ext_equal]
pub ghost struct StateModel {
    pub room: Room,
    pub entries: Seq<EntryModel>,
}

impl View for RoomState {
    type V = StateModel;

    open spec fn view(&self) -> StateModel {
        StateModel { room: self.room, entries: entries_view(self.entries) }
    }
}

/// The engine invariant. Every operation requires and preserves it:
/// the room row is well-formed (in particular, the voting timestamps are
/// both set exactly in the voting phase), every entry is well-formed (in
/// particular, each `(entry, voter)` pair exists at most once), entry ids
/// are distinct, and the room counters mirror the entries.
pub open spec fn state_wf(m: StateModel) -> bool {
    &&& room_wf(m.room)
    &&& m.room.total_items == m.entries.len()
    &&& m.entries.len() <= MAX_COUNT
    &&& m.room.ai_count == count_where(m.entries, pred_alive_ai())
    &&& entry_ids_distinct(m.entries)
    &&& forall|i: int| 0 <= i < m.entries.len() ==> entry_wf(#[trigger] m.entries[i])
}

/// Machine bound under which one more vote can always be recorded.
pub open spec fn votes_capped(m: StateModel) -> bool {
    forall|i: int| 0 <= i < m.entries.len() ==> (#[trigger] m.entries[i]).voters.len() < MAX_COUNT
}

/// Machine bound under which one more report can always be recorded.
pub open spec fn reports_capped(m: StateModel) -> bool {
    forall|i: int| 0 <= i < m.entries.len() ==> (#[trigger] m.entries[i]).reporters.len() < MAX_COUNT
}

impl RoomState {
    /// A freshly created room with no entries.
    pub fn new(created_at: i64) -> (r: RoomState)
        requires
            -MAX_TIME <= created_at <= MAX_TIME,
        ensures
            r@.room == spec_new_room(created_at),
            r@.entries.len() == 0,
            state_wf(r@),
    {
        RoomState { room: Room::new(created_at), entries: Vec::new() }
    }
}

// ---------------------------------------------------------------------------
// End-of-round evaluation.
// ---------------------------------------------------------------------------

/// End-of-round judgement over the room's entries (hidden ones included).
/// Nothing is judged while either side has no entries at all; otherwise the
/// first matching rule wins: defeat by eliminated humans, victory, defeat by
/// AI overflow.
pub open spec fn spec_round_outcome(entries: Seq<EntryModel>, cfg: GameConfig) -> Option<
    EndReason,
> {
    let ai_alive = count_where(entries, pred_alive_ai());
    let ai_eliminated = count_where(entries, pred_eliminated_ai());
    let human_alive = count_where(entries, pred_alive_human());
    let human_eliminated = count_where(entries, pred_eliminated_human());
    let ai_total = ai_alive + ai_eliminated;
    let human_total = human_alive + human_eliminated;
    if ai_total < 1 || human_total < 1 {
        None
    } else if human_eliminated >= spec_human_eliminated_limit(
        human_total,
        cfg.human_eliminated_ratio as int,
    ) {
        Some(EndReason::TooManyHumansEliminated)
    } else if ai_alive == 0 && human_alive >= spec_min_human_survive(
        human_total,
        cfg.victory_human_survive_ratio as int,
    ) {
        Some(EndReason::Victory)
    } else if spec_ai_overflow(ai_alive, human_alive, cfg.ai_overflow_delta as int) {
        Some(EndReason::AiOverrun)
    } else {
        None
    }
}

/// The victory or defeat event for `reason`, carrying the final counts.
pub open spec fn spec_end_event(reason: EndReason, entries: Seq<EntryModel>) -> GameEvent {
    let ai_alive = count_where(entries, pred_alive_ai());
    let human_alive = count_where(entries, pred_alive_human());
    let human_eliminated = count_where(entries, pred_eliminated_human());
    let human_total = human_alive + human_eliminated;
    if reason is Victory {
        GameEvent::Victory {
            ai_remaining: ai_alive as i64,
            human_remaining: human_alive as i64,
            human_total: human_total as i64,
        }
    } else {
        GameEvent::Defeat {
            reason,
            ai_remaining: ai_alive as i64,
            human_remaining: human_alive as i64,
            human_total: human_total as i64,
        }
    }
}

/// The state after an end-of-round evaluation: on a match the room becomes
/// terminal, otherwise nothing changes. Entries are never touched.
pub open spec fn spec_end_check_state(m: StateModel, cfg: GameConfig) -> StateModel {
    match spec_round_outcome(m.entries, cfg) {
        Some(_) => StateModel { room: spec_game_over_room(m.room), entries: m.entries },
        None => m,
    }
}

/// The events of an end-of-round evaluation: the victory or defeat event on
/// a match, nothing otherwise. The accompanying phase update is the
/// caller's, so that each request emits it exactly once.
pub open spec fn spec_end_check_events(m: StateModel, cfg: GameConfig) -> Seq<GameEvent> {
    match spec_round_outcome(m.entries, cfg) {
        Some(reason) => seq![spec_end_event(reason, m.entries)],
        None => Seq::empty(),
    }
}

/// The phase-update event describing the room's current phase.
pub open spec fn spec_phase_event(room: Room) -> GameEvent {
    GameEvent::PhaseUpdate {
        status: room.status,
        voting_started_at: room.voting_started_at,
        voting_ends_at: room.voting_ends_at,
    }
}

pub proof fn lemma_stats_bounds(entries: Seq<EntryModel>)
    requires
        entries.len() <= MAX_COUNT,
    ensures
        0 <= count_where(entries, pred_alive_ai()) <= MAX_COUNT,
        0 <= count_where(entries, pred_eliminated_ai()) <= MAX_COUNT,
        0 <= count_where(entries, pred_alive_human()) <= MAX_COUNT,
        0 <= count_where(entries, pred_eliminated_human()) <= MAX_COUNT,
        count_where(entries, pred_alive_ai()) + count_where(entries, pred_eliminated_ai())
            <= MAX_COUNT,
        count_where(entries, pred_alive_human()) + count_where(entries, pred_eliminated_human())
            <= MAX_COUNT,
{
    lemma_count_bounds(entries, pred_alive_ai());
    lemma_count_bounds(entries, pred_eliminated_ai());
    lemma_count_bounds(entries, pred_alive_human());
    lemma_count_bounds(entries, pred_eliminated_human());
    lemma_count_split(entries, pred_alive_ai(), pred_eliminated_ai(), |e: EntryModel| e.is_ai);
    lemma_count_bounds(entries, |e: EntryModel| e.is_ai);
    lemma_count_split(
        entries,
        pred_alive_human(),
        pred_eliminated_human(),
        |e: EntryModel| !e.is_ai,
    );
    lemma_count_bounds(entries, |e: EntryModel| !e.is_ai);
}

/// Runs the end-of-round evaluation and, on a match, ends the game. Appends
/// the victory or defeat event to `events`; the phase update is the
/// caller's.
pub fn check_game_end(state: &mut RoomState, cfg: &GameConfig, events: &mut Vec<GameEvent>) -> (r:
    Option<EndReason>)
    requires
        state_wf(old(state)@),
        cfg_wf(*cfg),
    ensures
        r == spec_round_outcome(old(state)@.entries, *cfg),
        final(state)@ == spec_end_check_state(old(state)@, *cfg),
        final(events)@ == old(events)@ + spec_end_check_events(old(state)@, *cfg),
        final(state)@.entries == old(state)@.entries,
        state_wf(final(state)@),
{
    let ghost m0 = state@;
    let ghost ev0 = events@;
    proof {
        lemma_stats_bounds(m0.entries);
    }
    let stats = room_stats(&state.entries);
    let ai_total = stats.ai_alive + stats.ai_eliminated;
    let human_total = stats.human_alive + stats.human_eliminated;
    if ai_total < 1 || human_total < 1 {
        proof {
            assert(events@ =~= ev0 + spec_end_check_events(m0, *cfg));
        }
        return None;
    }
    let reason: Option<EndReason> = if stats.human_eliminated >= human_eliminated_limit(
        human_total,
        cfg.human_eliminated_ratio,
    ) {
        Some(EndReason::TooManyHumansEliminated)
    } else if stats.ai_alive == 0 && stats.human_alive >= min_human_survive(
        human_total,
        cfg.victory_human_survive_ratio,
    ) {
        Some(EndReason::Victory)
    } else if ai_overflow(stats.ai_alive, stats.human_alive, cfg.ai_overflow_delta) {
        Some(EndReason::AiOverrun)
    } else {
        None
    };
    match reason {
        Some(end_reason) => {
            let event = if matches!(end_reason, EndReason::Victory) {
                GameEvent::Victory {
                    ai_remaining: stats.ai_alive,
                    human_remaining: stats.human_alive,
                    human_total,
                }
            } else {
                GameEvent::Defeat {
                    reason: end_reason,
                    ai_remaining: stats.ai_alive,
                    human_remaining: stats.human_alive,
                    human_total,
                }
            };
            events.push(event);
            state.room.status = RoomStatus::Gameover;
            state.room.voting_started_at = None;
            state.room.voting_ends_at = None;
            proof {
                assert(events@ =~= ev0 + spec_end_check_events(m0, *cfg));
                assert(state@ =~= spec_end_check_state(m0, *cfg));
            }
            Some(end_reason)
        },
        None => {
            proof {
                assert(events@ =~= ev0 + spec_end_check_events(m0, *cfg));
            }
            None
        },
    }
}

// ---------------------------------------------------------------------------
// Leaving the voting phase: vote reset.
// ---------------------------------------------------------------------------

/// An entry after a round reset: all vote records are removed; the stored
/// tally is cleared for live entries and stays frozen for eliminated ones.
pub open spec fn spec_reset_entry(e: EntryModel) -> EntryModel {
    EntryModel {
        vote_count: if e.is_eliminated {
            e.vote_count
        } else {
            0
        },
        voters: Seq::empty(),
        ..e
    }
}

/// The state after a round that did not end the game: every vote is reset
/// and the room returns to the submission phase.
pub open spec fn spec_reset_state(m: StateModel) -> StateModel {
    StateModel {
        room: Room {
            status: RoomStatus::Active,
            voting_started_at: None,
            voting_ends_at: None,
            ..m.room
        },
        entries: m.entries.map_values(|e: EntryModel| spec_reset_entry(e)),
    }
}

/// Resets all votes in the room and returns it to the submission phase.
pub fn reset_votes_and_exit_voting(state: &mut RoomState)
    requires
        state_wf(old(state)@),
    ensures
        final(state)@ == spec_reset_state(old(state)@),
        state_wf(final(state)@),
{
    let ghost m0 = state@;
    let n = state.entries.len();
    let mut i: usize = 0;
    while i < n
        invariant
            n == state.entries@.len(),
            i <= n,
            state.room == m0.room,
            n == m0.entries.len(),
            forall|j: int|
                0 <= j < i ==> entries_view(state.entries)[j] == spec_reset_entry(
                    m0.entries[j],
                ),
            forall|j: int| i <= j < n ==> entries_view(state.entries)[j] == m0.entries[j],
        decreases n - i,
    {
        let ghost before = state.entries@;
        let mut e = state.entries.remove(i);
        proof {
            assert(e@ == m0.entries[i as int]);
        }
        if !e.is_eliminated {
            e.vote_count = 0;
        }
        e.voters = Vec::new();
        let ghost new_model = e@;
        state.entries.insert(i, e);
        proof {
            assert(new_model =~= spec_reset_entry(m0.entries[i as int]));
            assert(state.entries@[i as int]@ == new_model);
            assert forall|j: int| 0 <= j < n && j != i implies entries_view(state.entries)[j]
                == before.map_values(|x: Entry| x@)[j] by {
                assert(state.entries@[j] == before[j]);
            }
        }
        i += 1;
    }
    state.room.status = RoomStatus::Active;
    state.room.voting_started_at = None;
    state.room.voting_ends_at = None;
    proof {
        assert(entries_view(state.entries) =~= m0.entries.map_values(
            |e: EntryModel| spec_reset_entry(e),
        ));
        lemma_count_map(m0.entries, pred_alive_ai(), |e: EntryModel| spec_reset_entry(e));
        assert(state@ =~= spec_reset_state(m0));
    }
}

// ---------------------------------------------------------------------------
// Entering the voting phase.
// ---------------------------------------------------------------------------

/// Whether the submission phase should give way to voting: enough live
/// visible humans alongside at least one live AI entry, or the submission
/// deadline has passed with at least one of each.
pub open spec fn spec_should_start_voting(m: StateModel, now: i64, cfg: GameConfig) -> bool {
    let ai_alive = count_where(m.entries, pred_alive_ai_visible());
    let human_alive = count_where(m.entries, pred_alive_human_visible());
    let min_humans = if cfg.min_humans_to_start_voting >= 1 {
        cfg.min_humans_to_start_voting as int
    } else {
        1
    };
    (ai_alive >= 1 && human_alive >= min_humans) || (now >= spec_submit_deadline(m.room, cfg)
        && ai_alive >= 1 && human_alive >= 1)
}

/// Moves the room into the voting phase, stamping the window from `now`.
fn start_voting(state: &mut RoomState, now: i64, cfg: &GameConfig)
    requires
        state_wf(old(state)@),
        cfg_wf(*cfg),
        -MAX_TIME <= now <= MAX_TIME,
        old(state)@.room.status is Active,
    ensures
        final(state)@.room == spec_start_voting_room(old(state)@.room, now, *cfg),
        final(state)@.entries == old(state)@.entries,
        state_wf(final(state)@),
{
    let duration = if cfg.voting_duration_millis >= MIN_VOTING_MILLIS {
        cfg.voting_duration_millis
    } else {
        MIN_VOTING_MILLIS
    };
    state.room.status = RoomStatus::Voting;
    state.room.voting_started_at = Some(now);
    state.room.voting_ends_at = Some(now + duration);
}

// ---------------------------------------------------------------------------
// The tick.
// ---------------------------------------------------------------------------

/// Whether the room sits in an expired voting phase at `now`.
pub open spec fn spec_voting_expired(m: StateModel, now: i64) -> bool {
    &&& m.room.status is Voting
    &&& m.room.voting_ends_at is Some
    &&& now >= m.room.voting_ends_at->0
}

/// The state after the lazy phase tick at `now`. An expired voting phase is
/// judged first; if that did not end the game, the votes are reset and the
/// room returns to the submission phase. A room then sitting in the
/// submission phase starts voting as soon as the start condition holds.
pub open spec fn spec_tick(m: StateModel, now: i64, cfg: GameConfig) -> StateModel {
    let m1 = if spec_voting_expired(m, now) {
        let me = spec_end_check_state(m, cfg);
        if me.room.status is Gameover {
            me
        } else {
            spec_reset_state(me)
        }
    } else {
        m
    };
    if m1.room.status is Active && spec_should_start_voting(m1, now, cfg) {
        StateModel { room: spec_start_voting_room(m1.room, now, cfg), entries: m1.entries }
    } else {
        m1
    }
}

/// The events of a tick: the end event of an expired round that ended the
/// game, then one phase update whenever the tick left the room in a phase
/// other than the one it entered with.
pub open spec fn spec_tick_events(m: StateModel, now: i64, cfg: GameConfig) -> Seq<GameEvent> {
    let ends = if spec_voting_expired(m, now) {
        spec_end_check_events(m, cfg)
    } else {
        Seq::empty()
    };
    let m2 = spec_tick(m, now, cfg);
    if m2.room.status != m.room.status {
        ends.push(spec_phase_event(m2.room))
    } else {
        ends
    }
}

/// The lazy phase tick, evaluated at the start of every join, cast and
/// retract request.
pub fn phase_tick(state: &mut RoomState, now: i64, cfg: &GameConfig) -> (events: Vec<GameEvent>)
    requires
        state_wf(old(state)@),
        cfg_wf(*cfg),
        -MAX_TIME <= now <= MAX_TIME,
    ensures
        final(state)@ == spec_tick(old(state)@, now, *cfg),
        events@ == spec_tick_events(old(state)@, now, *cfg),
        state_wf(final(state)@),
        votes_capped(old(state)@) ==> votes_capped(final(state)@),
        reports_capped(old(state)@) ==> reports_capped(final(state)@),
{
    let ghost m0 = state@;
    let before_status = state.room.status;
    let mut events: Vec<GameEvent> = Vec::new();
    if matches!(state.room.status, RoomStatus::Voting) {
        let expired = match state.room.voting_ends_at {
            Some(t) => now >= t,
            None => false,
        };
        if expired {
            let reason = check_game_end(state, cfg, &mut events);
            if reason.is_none() {
                reset_votes_and_exit_voting(state);
            }
        }
    }
    let ghost m1 = state@;
    if matches!(state.room.status, RoomStatus::Active) {
        proof {
            lemma_count_bounds(m1.entries, pred_alive_ai_visible());
            lemma_count_bounds(m1.entries, pred_alive_human_visible());
        }
        let (ai_alive, human_alive) = visible_alive_stats(&state.entries);
        let min_humans = if cfg.min_humans_to_start_voting >= 1 {
            cfg.min_humans_to_start_voting
        } else {
            1
        };
        let submit_duration = if cfg.submit_duration_millis >= MIN_SUBMIT_MILLIS {
            cfg.submit_duration_millis
        } else {
            MIN_SUBMIT_MILLIS
        };
        let submit_deadline = state.room.created_at + submit_duration;
        let should_start = (ai_alive >= 1 && human_alive >= min_humans) || (now >= submit_deadline
            && ai_alive >= 1 && human_alive >= 1);
        if should_start {
            start_voting(state, now, cfg);
        }
    }
    if !status_eq(state.room.status, before_status) {
        events.push(
            GameEvent::PhaseUpdate {
                status: state.room.status,
                voting_started_at: state.room.voting_started_at,
                voting_ends_at: state.room.voting_ends_at,
            },
        );
    }
    proof {
        assert(state@ =~= spec_tick(m0, now, *cfg));
        assert(events@ =~= spec_tick_events(m0, now, *cfg));
        lemma_tick_keeps_caps(m0, now, *cfg);
    }
    events
}

/// The tick never lengthens a voter or reporter list: it either leaves the
/// entries alone or clears the vote records.
proof fn lemma_tick_keeps_caps(m: StateModel, now: i64, cfg: GameConfig)
    ensures
        votes_capped(m) ==> votes_capped(spec_tick(m, now, cfg)),
        reports_capped(m) ==> reports_capped(spec_tick(m, now, cfg)),
{
    let m2 = spec_tick(m, now, cfg);
    let reset = spec_reset_state(spec_end_check_state(m, cfg));
    assert(m2.entries == m.entries || m2.entries == reset.entries);
    if m2.entries == reset.entries {
        assert forall|i: int| 0 <= i < m2.entries.len() implies (#[trigger] m2.entries[i])
            == spec_reset_entry(m.entries[i]) by {
            assert(reset.entries[i] == spec_reset_entry(m.entries[i]));
        }
    }
}

/// Phase equality.
fn status_eq(a: RoomStatus, b: RoomStatus) -> (r: bool)
    ensures
        r == (a == b),
{
    a == b
}

// ---------------------------------------------------------------------------
// Online count.
// ---------------------------------------------------------------------------

/// The room after a join or leave: the online count moves by `delta`,
/// floored at zero.
pub open spec fn spec_online_after(m: StateModel, delta: i64) -> StateModel {
    let n = m.room.online_count + delta;
    let clamped = if n >= 0 {
        n
    } else {
        0
    };
    StateModel { room: Room { online_count: clamped as i64, ..m.room }, entries: m.entries }
}

/// Applies a join (`+1`) or leave (`-1`) to the online count, flooring at
/// zero.
pub fn update_online_count(state: &mut RoomState, delta: i64)
    requires
        state_wf(old(state)@),
        old(state)@.room.online_count + delta <= MAX_COUNT,
        -MAX_COUNT <= delta,
    ensures
        final(state)@ == spec_online_after(old(state)@, delta),
        state_wf(final(state)@),
{
    let next = state.room.online_count + delta;
    state.room.online_count = if next >= 0 {
        next
    } else {
        0
    };
}

} // verus!
