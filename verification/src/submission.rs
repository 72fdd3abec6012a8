//! Submitting human entries and injecting AI entries.
//!
//! A human submission lands in the submission phase only; every
//! `spawn_rate`-th item asks the spawn selector for one AI entry. Each AI
//! injection recomputes the room's turbidity and, once the AI count reaches
//! the room's impostor budget, forces the game over.

use vstd::prelude::*;

use crate::engine::{
    spec_end_event, spec_phase_event, state_wf, RoomState, StateModel,
};
use crate::entry::{
    entries_view, has_entry, lemma_count_push, pred_alive_ai, room_stats, spec_new_entry, Entry,
    EntryModel,
};
use crate::events::{EndReason, GameEvent, SubmitEntryError, SubmitEntryOk};
use crate::policy::MAX_COUNT;
use crate::room::{spec_game_over_room, Room, RoomStatus};
use crate::strutil::truncate_chars;

verus! {

/// Longest entry name kept on submission.
pub const MAX_NAME_CHARS: usize = 8;

/// A submitted name, cut down to `MAX_NAME_CHARS` characters.
pub open spec fn spec_submitted_name(name: Seq<char>) -> Seq<char> {
    if name.len() > MAX_NAME_CHARS {
        name.subrange(0, MAX_NAME_CHARS as int)
    } else {
        name
    }
}

/// What a submission returns: rejected outside the submission phase;
/// otherwise the new item total, and the one-based index of the AI entry to
/// inject when the total lands on a multiple of the spawn rate.
pub open spec fn spec_submit_result(m: StateModel, spawn_rate: i64) -> Result<
    SubmitEntryOk,
    SubmitEntryError,
> {
    if !(m.room.status is Active) {
        Err(SubmitEntryError::RoomNotActive)
    } else {
        let new_total = m.room.total_items + 1;
        Ok(
            SubmitEntryOk {
                total_items: new_total as i64,
                spawn_index: if new_total % (spawn_rate as int) == 0 {
                    Some((new_total / (spawn_rate as int)) as i64)
                } else {
                    None
                },
            },
        )
    }
}

/// The state after a submission: the fresh human entry appended and the item
/// total advanced.
pub open spec fn spec_submit_state(
    m: StateModel,
    id: u64,
    name: Seq<char>,
    session_id: Option<u64>,
    spawn_rate: i64,
) -> StateModel {
    match spec_submit_result(m, spawn_rate) {
        Err(_) => m,
        Ok(_) => StateModel {
            room: Room { total_items: (m.room.total_items + 1) as i64, ..m.room },
            entries: m.entries.push(
                spec_new_entry(id, false, spec_submitted_name(name), session_id),
            ),
        },
    }
}

/// The events of a submission.
pub open spec fn spec_submit_events(m: StateModel, id: u64, spawn_rate: i64) -> Seq<GameEvent> {
    match spec_submit_result(m, spawn_rate) {
        Err(_) => Seq::empty(),
        Ok(_) => seq![GameEvent::EntryAdded { entry_id: id, is_ai: false }],
    }
}

/// Submits a human drawing as a fresh entry. The name is cut down to
/// `MAX_NAME_CHARS` characters. Rejected outside the submission phase. The
/// result says when the room should now inject an AI entry: on every item
/// total that is a multiple of `spawn_rate`.
pub fn submit_entry(
    state: &mut RoomState,
    id: u64,
    name: &str,
    session_id: Option<u64>,
    spawn_rate: i64,
) -> (r: (Result<SubmitEntryOk, SubmitEntryError>, Vec<GameEvent>))
    requires
        state_wf(old(state)@),
        !has_entry(old(state)@.entries, id),
        old(state)@.room.total_items < MAX_COUNT,
        1 <= spawn_rate,
    ensures
        r.0 == spec_submit_result(old(state)@, spawn_rate),
        final(state)@ == spec_submit_state(old(state)@, id, name@, session_id, spawn_rate),
        r.1@ == spec_submit_events(old(state)@, id, spawn_rate),
        state_wf(final(state)@),
{
    let ghost m0 = state@;
    let mut events: Vec<GameEvent> = Vec::new();
    if !matches!(state.room.status, RoomStatus::Active) {
        proof {
            assert(events@ =~= spec_submit_events(m0, id, spawn_rate));
        }
        return (Err(SubmitEntryError::RoomNotActive), events);
    }
    let kept_name = truncate_chars(name, MAX_NAME_CHARS);
    let entry = Entry::new(id, false, kept_name, session_id);
    let ghost new_entry = entry@;
    state.entries.push(entry);
    state.room.total_items = state.room.total_items + 1;
    let new_total = state.room.total_items;
    proof {
        lemma_count_push(m0.entries, pred_alive_ai(), new_entry);
        assert(entries_view(state.entries) =~= m0.entries.push(new_entry));
        assert(state@ =~= spec_submit_state(m0, id, name@, session_id, spawn_rate));
    }
    let spawn_index = if new_total % spawn_rate == 0 {
        Some(new_total / spawn_rate)
    } else {
        None
    };
    events.push(GameEvent::EntryAdded { entry_id: id, is_ai: false });
    proof {
        assert(events@ =~= spec_submit_events(m0, id, spawn_rate));
    }
    (Ok(SubmitEntryOk { total_items: new_total, spawn_index }), events)
}

// ---------------------------------------------------------------------------
// AI injection.
// ---------------------------------------------------------------------------

/// The derived AI-density metric in per-mille: the AI count over the
/// impostor budget, capped at one.
pub open spec fn spec_turbidity(ai_count: int, max_imposters: int) -> int {
    let t = ai_count * 1000 / max_imposters;
    if t > 1000 {
        1000
    } else {
        t
    }
}

/// The state after an AI injection: the fresh AI entry appended, the AI and
/// item counters advanced, the turbidity recomputed, and the game forced
/// over once the AI count reaches the impostor budget.
pub open spec fn spec_spawn_state(
    m: StateModel,
    id: u64,
    name: Seq<char>,
    max_imposters: i64,
) -> StateModel {
    let m2 = StateModel {
        room: Room {
            ai_count: (m.room.ai_count + 1) as i64,
            total_items: (m.room.total_items + 1) as i64,
            turbidity: spec_turbidity(m.room.ai_count + 1, max_imposters as int) as i64,
            ..m.room
        },
        entries: m.entries.push(spec_new_entry(id, true, name, None)),
    };
    if m.room.ai_count + 1 >= max_imposters {
        StateModel { room: spec_game_over_room(m2.room), entries: m2.entries }
    } else {
        m2
    }
}

/// The events of an AI injection: the new entry and, on a generation
/// overrun, the defeat with final counts and the phase update.
pub open spec fn spec_spawn_events(
    m: StateModel,
    id: u64,
    name: Seq<char>,
    max_imposters: i64,
) -> Seq<GameEvent> {
    let m2 = spec_spawn_state(m, id, name, max_imposters);
    let base = seq![GameEvent::EntryAdded { entry_id: id, is_ai: true }];
    if m.room.ai_count + 1 >= max_imposters {
        base.push(spec_end_event(EndReason::GenerationOverrun, m2.entries)).push(
            spec_phase_event(m2.room),
        )
    } else {
        base
    }
}

/// Injects one AI entry into the room: advances the AI and item counters,
/// recomputes the turbidity and, when the AI count reaches the impostor
/// budget, forces the game over independent of the voting protocol.
pub fn apply_ai_spawn(state: &mut RoomState, id: u64, name: String, max_imposters: i64) -> (events:
    Vec<GameEvent>)
    requires
        state_wf(old(state)@),
        !has_entry(old(state)@.entries, id),
        old(state)@.room.total_items < MAX_COUNT,
        1 <= max_imposters,
    ensures
        final(state)@ == spec_spawn_state(old(state)@, id, name@, max_imposters),
        events@ == spec_spawn_events(old(state)@, id, name@, max_imposters),
        state_wf(final(state)@),
{
    let ghost m0 = state@;
    let entry = Entry::new(id, true, name, None);
    let ghost new_entry = entry@;
    state.entries.push(entry);
    proof {
        lemma_count_push(m0.entries, pred_alive_ai(), new_entry);
        assert(entries_view(state.entries) =~= m0.entries.push(new_entry));
        crate::entry::lemma_count_bounds(m0.entries, pred_alive_ai());
    }
    state.room.ai_count = state.room.ai_count + 1;
    state.room.total_items = state.room.total_items + 1;
    let scaled = {
        proof {
            vstd::arithmetic::mul::lemma_mul_upper_bound(
                state.room.ai_count as int,
                MAX_COUNT as int + 1,
                1000,
                1000,
            );
            vstd::arithmetic::mul::lemma_mul_nonnegative(state.room.ai_count as int, 1000);
            vstd::arithmetic::div_mod::lemma_div_pos_is_pos(
                state.room.ai_count as int * 1000,
                max_imposters as int,
            );
        }
        state.room.ai_count * 1000 / max_imposters
    };
    state.room.turbidity = if scaled > 1000 {
        1000
    } else {
        scaled
    };
    let mut events: Vec<GameEvent> = Vec::new();
    events.push(GameEvent::EntryAdded { entry_id: id, is_ai: true });
    if state.room.ai_count >= max_imposters {
        proof {
            crate::engine::lemma_stats_bounds(entries_view(state.entries));
        }
        let stats = room_stats(&state.entries);
        events.push(
            GameEvent::Defeat {
                reason: EndReason::GenerationOverrun,
                ai_remaining: stats.ai_alive,
                human_remaining: stats.human_alive,
                human_total: stats.human_alive + stats.human_eliminated,
            },
        );
        state.room.status = RoomStatus::Gameover;
        state.room.voting_started_at = None;
        state.room.voting_ends_at = None;
        events.push(
            GameEvent::PhaseUpdate {
                status: state.room.status,
                voting_started_at: state.room.voting_started_at,
                voting_ends_at: state.room.voting_ends_at,
            },
        );
    }
    proof {
        assert(state@ =~= spec_spawn_state(m0, id, name@, max_imposters));
        assert(events@ =~= spec_spawn_events(m0, id, name@, max_imposters));
    }
    events
}

} // verus!
