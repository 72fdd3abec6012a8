//! The room engine: phases, votes, eliminations and game endings.

use mimic_core::engine::{check_game_end, phase_tick, update_online_count, RoomState};
use mimic_core::events::{EndReason, GameEvent, VoteError};
use mimic_core::moderation::report_entry;
use mimic_core::room::{GameConfig, RoomStatus};
use mimic_core::submission::{apply_ai_spawn, submit_entry};
use mimic_core::voting::{cast_vote, retract_vote};

fn test_config() -> GameConfig {
    GameConfig {
        vote_threshold_ratio: 600,
        vote_min_threshold: 2,
        human_eliminated_ratio: 400,
        victory_human_survive_ratio: 600,
        ai_overflow_delta: 2,
        min_humans_to_start_voting: 2,
        voting_duration_millis: 45_000,
        submit_duration_millis: 60_000,
    }
}

/// A room with human entries `1..=humans` and AI entries `1000..`, created
/// at time 0, still in the submission phase.
fn room_with(humans: u64, ais: u64) -> RoomState {
    let mut state = RoomState::new(0);
    for i in 0..humans {
        let (r, _) = submit_entry(&mut state, i + 1, "fish", Some(i + 1), 1_000_000);
        assert!(r.is_ok());
    }
    for j in 0..ais {
        apply_ai_spawn(&mut state, 1000 + j, "impostor".to_string(), 1_000_000);
    }
    state
}

fn vote_count_of(state: &RoomState, id: u64) -> i64 {
    state.entries.iter().find(|e| e.id == id).unwrap().vote_count
}

fn assert_phase_matches_timestamps(state: &RoomState) {
    let voting = state.room.status == RoomStatus::Voting;
    assert_eq!(voting, state.room.voting_started_at.is_some());
    assert_eq!(voting, state.room.voting_ends_at.is_some());
}

#[test]
fn fresh_room_is_submitting_without_timestamps() {
    let state = RoomState::new(0);
    assert_eq!(state.room.status, RoomStatus::Active);
    assert_phase_matches_timestamps(&state);
    assert_eq!(state.room.total_items, 0);
    assert_eq!(state.room.ai_count, 0);
}

#[test]
fn tick_starts_voting_once_enough_entries_are_in() {
    let cfg = test_config();
    let mut state = room_with(1, 1);
    // One human is below the configured minimum of two.
    let evs = phase_tick(&mut state, 0, &cfg);
    assert_eq!(state.room.status, RoomStatus::Active);
    assert!(evs.is_empty());
    let (r, _) = submit_entry(&mut state, 2, "second", Some(2), 1_000_000);
    assert!(r.is_ok());
    let evs = phase_tick(&mut state, 0, &cfg);
    assert_eq!(state.room.status, RoomStatus::Voting);
    assert_eq!(state.room.voting_started_at, Some(0));
    assert_eq!(state.room.voting_ends_at, Some(45_000));
    assert_phase_matches_timestamps(&state);
    assert!(matches!(evs[0], GameEvent::PhaseUpdate { status: RoomStatus::Voting, .. }));
}

#[test]
fn tick_starts_voting_after_the_submission_deadline_with_one_human() {
    let cfg = test_config();
    let mut state = room_with(1, 1);
    let _ = phase_tick(&mut state, 59_999, &cfg);
    assert_eq!(state.room.status, RoomStatus::Active);
    let _ = phase_tick(&mut state, 60_000, &cfg);
    assert_eq!(state.room.status, RoomStatus::Voting);
    assert_phase_matches_timestamps(&state);
}

/// Scenario: ten players online with a 0.6 ratio and a floor of two make a
/// threshold of six; five distinct votes leave the entry alive, the sixth
/// eliminates it.
#[test]
fn scenario_six_votes_eliminate_at_threshold() {
    let cfg = test_config();
    let mut state = room_with(10, 1);
    update_online_count(&mut state, 10);
    let _ = phase_tick(&mut state, 0, &cfg);
    assert_eq!(state.room.status, RoomStatus::Voting);
    for voter in 1..=5u64 {
        let (r, evs) = cast_vote(&mut state, 1, Some(voter), 1, &cfg);
        let ok = r.unwrap();
        assert!(ok.applied);
        assert!(!ok.eliminated);
        assert_eq!(ok.new_count, voter as i64);
        assert!(evs.iter().any(|e| matches!(e, GameEvent::VoteUpdate { entry_id: 1, count } if *count == voter as i64)));
    }
    let (r, evs) = cast_vote(&mut state, 1, Some(6), 1, &cfg);
    let ok = r.unwrap();
    assert!(ok.applied);
    assert!(ok.eliminated);
    assert_eq!(ok.new_count, 6);
    assert_eq!(ok.end, None);
    assert!(evs.iter().any(|e| matches!(e, GameEvent::EntryEliminated { entry_id: 1, is_ai: false })));
    let entry = state.entries.iter().find(|e| e.id == 1).unwrap();
    assert!(entry.is_eliminated);
    assert_eq!(entry.eliminated_at, Some(1));
    // The tally at the moment of elimination reached the threshold.
    assert!(entry.vote_count >= 6);
}

#[test]
fn duplicate_cast_is_a_noop() {
    let cfg = test_config();
    let mut state = room_with(3, 1);
    update_online_count(&mut state, 10);
    let _ = phase_tick(&mut state, 0, &cfg);
    let (first, _) = cast_vote(&mut state, 1, Some(42), 1, &cfg);
    assert!(first.unwrap().applied);
    assert_eq!(vote_count_of(&state, 1), 1);
    let (second, evs) = cast_vote(&mut state, 1, Some(42), 1, &cfg);
    let ok = second.unwrap();
    assert!(!ok.applied);
    assert_eq!(ok.new_count, 1);
    assert!(evs.is_empty());
    assert_eq!(vote_count_of(&state, 1), 1);
}

#[test]
fn retract_without_prior_cast_is_a_noop() {
    let cfg = test_config();
    let mut state = room_with(3, 1);
    update_online_count(&mut state, 10);
    let _ = phase_tick(&mut state, 0, &cfg);
    let before = vote_count_of(&state, 1);
    let (r, evs) = retract_vote(&mut state, 1, Some(42), 1, &cfg);
    let ok = r.unwrap();
    assert!(!ok.removed);
    assert_eq!(ok.new_count, before);
    assert!(evs.is_empty());
    assert_eq!(vote_count_of(&state, 1), before);
}

#[test]
fn cast_then_retract_restores_the_tally() {
    let cfg = test_config();
    let mut state = room_with(3, 1);
    update_online_count(&mut state, 10);
    let _ = phase_tick(&mut state, 0, &cfg);
    let before = vote_count_of(&state, 2);
    let (r, _) = cast_vote(&mut state, 2, Some(7), 1, &cfg);
    assert!(r.unwrap().applied);
    assert_eq!(vote_count_of(&state, 2), before + 1);
    let (r, evs) = retract_vote(&mut state, 2, Some(7), 1, &cfg);
    let ok = r.unwrap();
    assert!(ok.removed);
    assert_eq!(ok.new_count, before);
    assert_eq!(vote_count_of(&state, 2), before);
    assert!(matches!(evs[0], GameEvent::VoteUpdate { entry_id: 2, count } if count == before));
}

#[test]
fn vote_errors_carry_their_reasons() {
    let cfg = test_config();
    let mut state = room_with(1, 1);
    update_online_count(&mut state, 10);
    // One human is too few to open voting, so the cast's own tick leaves
    // the room in the submission phase and the cast is rejected.
    let (r, _) = cast_vote(&mut state, 1, Some(1), 0, &cfg);
    assert_eq!(r.unwrap_err(), VoteError::NotVoting);
    let (r2, _) = submit_entry(&mut state, 2, "second", Some(2), 1_000_000);
    assert!(r2.is_ok());
    let _ = phase_tick(&mut state, 0, &cfg);
    let (r, _) = cast_vote(&mut state, 1, None, 1, &cfg);
    assert_eq!(r.unwrap_err(), VoteError::Unauthorized);
    let (r, _) = cast_vote(&mut state, 999, Some(1), 1, &cfg);
    assert_eq!(r.unwrap_err(), VoteError::EntryNotFound);
    let (r, _) = retract_vote(&mut state, 999, Some(1), 1, &cfg);
    assert_eq!(r.unwrap_err(), VoteError::EntryNotFound);
}

#[test]
fn eliminated_entries_are_frozen() {
    let cfg = test_config();
    let mut state = room_with(10, 1);
    update_online_count(&mut state, 2);
    let _ = phase_tick(&mut state, 0, &cfg);
    // Threshold is max(2, ceil(2 * 0.6)) = 2.
    let (_, _) = cast_vote(&mut state, 1, Some(1), 1, &cfg);
    let (r, _) = cast_vote(&mut state, 1, Some(2), 1, &cfg);
    assert!(r.unwrap().eliminated);
    let frozen = vote_count_of(&state, 1);
    let (r, _) = cast_vote(&mut state, 1, Some(3), 1, &cfg);
    assert_eq!(r.unwrap_err(), VoteError::EntryEliminated);
    let (r, _) = retract_vote(&mut state, 1, Some(1), 1, &cfg);
    assert_eq!(r.unwrap_err(), VoteError::EntryEliminated);
    assert_eq!(vote_count_of(&state, 1), frozen);
}

/// Scenario: five humans with a 0.4 elimination ratio make a limit of two;
/// the second eliminated human ends the room in defeat for too many
/// eliminated humans.
#[test]
fn scenario_second_human_elimination_ends_in_defeat() {
    let mut cfg = test_config();
    cfg.vote_threshold_ratio = 0;
    cfg.vote_min_threshold = 2;
    let mut state = room_with(5, 1);
    update_online_count(&mut state, 10);
    let _ = phase_tick(&mut state, 0, &cfg);
    // First human falls: one eliminated human is under the limit of two.
    let (_, _) = cast_vote(&mut state, 1, Some(11), 1, &cfg);
    let (r, _) = cast_vote(&mut state, 1, Some(12), 1, &cfg);
    let ok = r.unwrap();
    assert!(ok.eliminated);
    assert_eq!(ok.end, None);
    assert_eq!(state.room.status, RoomStatus::Voting);
    // Second human falls: the room is lost.
    let (_, _) = cast_vote(&mut state, 2, Some(11), 2, &cfg);
    let (r, evs) = cast_vote(&mut state, 2, Some(12), 2, &cfg);
    let ok = r.unwrap();
    assert!(ok.eliminated);
    assert_eq!(ok.end, Some(EndReason::TooManyHumansEliminated));
    assert_eq!(state.room.status, RoomStatus::Gameover);
    assert_phase_matches_timestamps(&state);
    let defeat = evs
        .iter()
        .find_map(|e| match e {
            GameEvent::Defeat { reason, human_total, human_remaining, .. } => {
                Some((*reason, *human_total, *human_remaining))
            }
            _ => None,
        })
        .unwrap();
    assert_eq!(defeat, (EndReason::TooManyHumansEliminated, 5, 3));
    assert_eq!(EndReason::TooManyHumansEliminated.code(), "too_many_human_killed");
}

#[test]
fn eliminating_every_impostor_wins_the_room() {
    let mut cfg = test_config();
    cfg.vote_threshold_ratio = 0;
    cfg.vote_min_threshold = 1;
    let mut state = room_with(2, 1);
    update_online_count(&mut state, 5);
    let _ = phase_tick(&mut state, 0, &cfg);
    let (r, evs) = cast_vote(&mut state, 1000, Some(11), 1, &cfg);
    let ok = r.unwrap();
    assert!(ok.eliminated);
    assert_eq!(ok.end, Some(EndReason::Victory));
    assert_eq!(state.room.status, RoomStatus::Gameover);
    assert_eq!(state.room.ai_count, 0);
    assert!(evs.iter().any(|e| matches!(
        e,
        GameEvent::Victory { ai_remaining: 0, human_remaining: 2, human_total: 2 }
    )));
    assert_phase_matches_timestamps(&state);
    // A terminal room rejects further votes and stays terminal.
    let (r, _) = cast_vote(&mut state, 1, Some(11), 2, &cfg);
    assert_eq!(r.unwrap_err(), VoteError::NotVoting);
    assert_eq!(state.room.status, RoomStatus::Gameover);
}

#[test]
fn voting_timeout_resets_votes_and_reopens_the_round() {
    let cfg = test_config();
    let mut state = room_with(3, 1);
    update_online_count(&mut state, 10);
    let _ = phase_tick(&mut state, 0, &cfg);
    let ends = state.room.voting_ends_at.unwrap();
    let (_, _) = cast_vote(&mut state, 1, Some(7), 1, &cfg);
    assert_eq!(vote_count_of(&state, 1), 1);
    // The deadline lapses; the round did not end the game, so votes reset
    // and, with the start condition still holding, a fresh round begins.
    let _ = phase_tick(&mut state, ends, &cfg);
    assert_eq!(state.room.status, RoomStatus::Voting);
    assert_eq!(state.room.voting_ends_at, Some(ends + 45_000));
    assert_eq!(vote_count_of(&state, 1), 0);
    assert_phase_matches_timestamps(&state);
}

#[test]
fn ai_outnumbering_humans_ends_the_expired_round_in_defeat() {
    let cfg = test_config();
    let mut state = room_with(1, 1);
    // Reach voting through the submission deadline with one human.
    let _ = phase_tick(&mut state, 60_000, &cfg);
    assert_eq!(state.room.status, RoomStatus::Voting);
    for j in 0..4u64 {
        apply_ai_spawn(&mut state, 2000 + j, "impostor".to_string(), 1_000_000);
    }
    // 5 AI against 1 human exceeds the slack of 2 at the round's end.
    let ends = state.room.voting_ends_at.unwrap();
    let evs = phase_tick(&mut state, ends, &cfg);
    assert_eq!(state.room.status, RoomStatus::Gameover);
    assert!(evs.iter().any(|e| matches!(
        e,
        GameEvent::Defeat { reason: EndReason::AiOverrun, ai_remaining: 5, human_remaining: 1, .. }
    )));
    assert_phase_matches_timestamps(&state);
}

#[test]
fn check_game_end_skips_rooms_without_both_sides() {
    let cfg = test_config();
    let mut state = room_with(3, 0);
    let mut evs = Vec::new();
    assert_eq!(check_game_end(&mut state, &cfg, &mut evs), None);
    assert!(evs.is_empty());
    assert_eq!(state.room.status, RoomStatus::Active);
}

#[test]
fn submissions_are_rejected_outside_the_submission_phase() {
    let cfg = test_config();
    let mut state = room_with(3, 1);
    let _ = phase_tick(&mut state, 0, &cfg);
    assert_eq!(state.room.status, RoomStatus::Voting);
    let (r, _) = submit_entry(&mut state, 50, "late", Some(50), 5);
    assert!(r.is_err());
    assert_eq!(state.room.total_items, 4);
}

#[test]
fn every_fifth_item_asks_for_an_ai_spawn() {
    let mut state = RoomState::new(0);
    for i in 1..=4u64 {
        let (r, _) = submit_entry(&mut state, i, "fish", Some(i), 5);
        assert_eq!(r.unwrap().spawn_index, None);
    }
    let (r, _) = submit_entry(&mut state, 5, "fish", Some(5), 5);
    assert_eq!(r.unwrap().spawn_index, Some(1));
    assert_eq!(state.room.total_items, 5);
}

#[test]
fn submitted_names_are_cut_to_eight_characters() {
    let mut state = RoomState::new(0);
    let (r, _) = submit_entry(&mut state, 1, "abcdefghij", Some(1), 5);
    assert!(r.is_ok());
    assert_eq!(state.entries[0].name, "abcdefgh");
    let (r, _) = submit_entry(&mut state, 2, "短名字", Some(2), 5);
    assert!(r.is_ok());
    assert_eq!(state.entries[1].name, "短名字");
}

#[test]
fn ai_spawns_update_turbidity_and_force_gameover_at_the_budget() {
    let mut state = RoomState::new(0);
    let (_, _) = submit_entry(&mut state, 1, "fish", Some(1), 1_000_000);
    let evs = apply_ai_spawn(&mut state, 1000, "impostor".to_string(), 4);
    assert_eq!(state.room.turbidity, 250);
    assert_eq!(state.room.ai_count, 1);
    assert!(matches!(evs[0], GameEvent::EntryAdded { entry_id: 1000, is_ai: true }));
    apply_ai_spawn(&mut state, 1001, "impostor".to_string(), 4);
    apply_ai_spawn(&mut state, 1002, "impostor".to_string(), 4);
    assert_eq!(state.room.status, RoomStatus::Active);
    assert_eq!(state.room.turbidity, 750);
    let evs = apply_ai_spawn(&mut state, 1003, "impostor".to_string(), 4);
    assert_eq!(state.room.status, RoomStatus::Gameover);
    assert_eq!(state.room.turbidity, 1000);
    assert!(evs.iter().any(|e| matches!(
        e,
        GameEvent::Defeat { reason: EndReason::GenerationOverrun, .. }
    )));
    assert_phase_matches_timestamps(&state);
}

#[test]
fn reports_hide_an_entry_at_three_and_count_each_reporter_once() {
    let mut state = room_with(1, 0);
    let ok = report_entry(&mut state, 1, 100).unwrap();
    assert_eq!(ok.report_count, 1);
    assert!(!ok.hidden);
    let err = report_entry(&mut state, 1, 100).unwrap_err();
    assert_eq!(format!("{:?}", err), "AlreadyReported");
    let ok = report_entry(&mut state, 1, 101).unwrap();
    assert_eq!(ok.report_count, 2);
    assert!(!ok.hidden);
    let ok = report_entry(&mut state, 1, 102).unwrap();
    assert_eq!(ok.report_count, 3);
    assert!(ok.hidden);
    assert!(state.entries[0].is_hidden);
    assert!(report_entry(&mut state, 999, 1).is_err());
}

#[test]
fn online_count_floors_at_zero() {
    let mut state = RoomState::new(0);
    update_online_count(&mut state, -5);
    assert_eq!(state.room.online_count, 0);
    update_online_count(&mut state, 3);
    update_online_count(&mut state, -1);
    assert_eq!(state.room.online_count, 2);
}
