//! Status codes, listings, voter lists and generation-task bookkeeping.

use mimic_core::ai_task::{complete_task, fail_task, AiTask};
use mimic_core::api::AiTaskStatus;
use mimic_core::engine::{phase_tick, update_online_count, RoomState};
use mimic_core::entry::visible_entry_ids;
use mimic_core::events::EndReason;
use mimic_core::moderation::report_entry;
use mimic_core::room::{status_from_code, GameConfig, RoomStatus};
use mimic_core::submission::{apply_ai_spawn, submit_entry};
use mimic_core::voting::{cast_vote, current_vote_threshold, entry_voters};

fn cfg() -> GameConfig {
    GameConfig {
        vote_threshold_ratio: 600,
        vote_min_threshold: 2,
        human_eliminated_ratio: 400,
        victory_human_survive_ratio: 600,
        ai_overflow_delta: 2,
        min_humans_to_start_voting: 2,
        voting_duration_millis: 45_000,
        submit_duration_millis: 60_000,
    }
}

#[test]
fn status_codes_round_trip() {
    assert_eq!(RoomStatus::Active.code(), "active");
    assert_eq!(RoomStatus::Voting.code(), "voting");
    assert_eq!(RoomStatus::Gameover.code(), "gameover");
    assert_eq!(status_from_code("voting"), RoomStatus::Voting);
    assert_eq!(status_from_code("gameover"), RoomStatus::Gameover);
    assert_eq!(status_from_code("active"), RoomStatus::Active);
    assert_eq!(status_from_code("anything else"), RoomStatus::Active);
}

#[test]
fn end_reason_codes_are_stable() {
    assert_eq!(EndReason::Victory.code(), "victory");
    assert_eq!(EndReason::AiOverrun.code(), "ai_overrun");
    assert_eq!(EndReason::GenerationOverrun.code(), "generation_overrun");
}

#[test]
fn listings_skip_hidden_and_eliminated_entries() {
    let c = cfg();
    let mut state = RoomState::new(0);
    for i in 1..=4u64 {
        let (r, _) = submit_entry(&mut state, i, "fish", Some(i), 1_000_000);
        assert!(r.is_ok());
    }
    apply_ai_spawn(&mut state, 100, "impostor".to_string(), 1_000_000);
    // Hide entry 2 with three reports.
    for reporter in 10..13u64 {
        report_entry(&mut state, 2, reporter).unwrap();
    }
    // Eliminate entry 3 (threshold 2 with two players online).
    update_online_count(&mut state, 2);
    let _ = phase_tick(&mut state, 0, &c);
    cast_vote(&mut state, 3, Some(20), 1, &c).0.unwrap();
    let r = cast_vote(&mut state, 3, Some(21), 1, &c).0.unwrap();
    assert!(r.eliminated);
    assert_eq!(visible_entry_ids(&state.entries), vec![1, 4, 100]);
}

#[test]
fn voter_lists_follow_the_casts() {
    let c = cfg();
    let mut state = RoomState::new(0);
    for i in 1..=3u64 {
        submit_entry(&mut state, i, "fish", Some(i), 1_000_000).0.unwrap();
    }
    apply_ai_spawn(&mut state, 100, "impostor".to_string(), 1_000_000);
    update_online_count(&mut state, 10);
    let _ = phase_tick(&mut state, 0, &c);
    assert_eq!(current_vote_threshold(&state, &c), 6);
    cast_vote(&mut state, 1, Some(31), 1, &c).0.unwrap();
    cast_vote(&mut state, 1, Some(32), 1, &c).0.unwrap();
    assert_eq!(entry_voters(&state, 1), Some(vec![31, 32]));
    assert_eq!(entry_voters(&state, 2), Some(vec![]));
    assert_eq!(entry_voters(&state, 999), None);
}

#[test]
fn generation_tasks_record_their_outcome() {
    let mut task = AiTask::new(5, 77);
    assert_eq!(task.status, AiTaskStatus::Pending);
    assert_eq!(task.retry_count, 0);
    complete_task(&mut task, "data".to_string(), "小鱼".to_string(), None, 123);
    assert_eq!(task.status, AiTaskStatus::Completed);
    assert_eq!(task.image_data.as_deref(), Some("data"));
    assert_eq!(task.generated_name.as_deref(), Some("小鱼"));
    assert_eq!(task.completed_at, Some(123));

    let mut failed = AiTask::new(6, 77);
    fail_task(&mut failed, Some("pipeline unreachable".to_string()));
    assert_eq!(failed.status, AiTaskStatus::Failed);
    assert_eq!(failed.retry_count, 1);
    assert_eq!(failed.error_message.as_deref(), Some("pipeline unreachable"));
    fail_task(&mut failed, None);
    assert_eq!(failed.retry_count, 2);
    assert_eq!(failed.error_message, None);
}
