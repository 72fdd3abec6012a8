//! The single-player run engine.

use mimic_core::single_player::{
    catch_fish, level_config, start_run, submit_run, FishKind, Run, RunError, RunStatus,
    StartError,
};

fn pools() -> (Vec<u64>, Vec<u64>) {
    ((1..=7u64).collect(), vec![100, 101, 102])
}

fn level_one_run() -> Run {
    let (humans, ais) = pools();
    start_run(1, 7, 1, 0, humans, ais, false).unwrap()
}

fn instances_of(run: &Run, kind: FishKind) -> Vec<u64> {
    run.fish.iter().filter(|f| f.kind == kind).map(|f| f.instance_id).collect()
}

#[test]
fn level_table_matches_the_design() {
    let one = level_config(1).unwrap();
    assert_eq!(
        (one.total, one.ai, one.seconds, one.max_mistakes, one.target_total, one.difficulty_level),
        (10, 3, 60, 3, 3, 1)
    );
    let two = level_config(2).unwrap();
    assert_eq!((two.total, two.ai, two.difficulty_level), (20, 5, 2));
    let three = level_config(3).unwrap();
    assert_eq!((three.total, three.ai, three.difficulty_level), (30, 7, 3));
    assert!(level_config(0).is_none());
    assert!(level_config(4).is_none());
}

#[test]
fn a_started_run_holds_the_interleaved_cards() {
    let run = level_one_run();
    assert_eq!(run.status, RunStatus::Active);
    assert_eq!(run.fish.len(), 10);
    assert_eq!(run.ends_at, 60_000);
    assert_eq!(run.mistakes, 0);
    assert_eq!(run.targets_found, 0);
    assert_eq!(instances_of(&run, FishKind::Ai).len(), 3);
    assert_eq!(instances_of(&run, FishKind::Human).len(), 7);
    for (i, f) in run.fish.iter().enumerate() {
        assert_eq!(f.order_index, i);
        assert!(!f.is_caught);
        match f.kind {
            FishKind::Ai => assert!((100..=102).contains(&f.fish_ref)),
            FishKind::Human => assert!((1..=7).contains(&f.fish_ref)),
        }
    }
}

#[test]
fn start_errors_follow_the_pools_and_level() {
    let (humans, ais) = pools();
    assert_eq!(
        start_run(1, 7, 0, 0, humans.clone(), ais.clone(), false).unwrap_err(),
        StartError::InvalidLevel
    );
    assert_eq!(
        start_run(1, 7, 1, 0, Vec::new(), ais.clone(), true).unwrap_err(),
        StartError::NotEnoughHumanFish
    );
    assert_eq!(
        start_run(1, 7, 1, 0, humans.clone(), Vec::new(), true).unwrap_err(),
        StartError::NotEnoughAiFish
    );
    assert_eq!(
        start_run(1, 7, 1, 0, vec![1, 2, 3], ais.clone(), false).unwrap_err(),
        StartError::NotEnoughFish
    );
}

#[test]
fn a_thin_pool_is_padded_with_duplicates_when_allowed() {
    let run = start_run(1, 7, 1, 0, vec![1, 2, 3], vec![100], true).unwrap();
    assert_eq!(run.fish.len(), 10);
    assert_eq!(instances_of(&run, FishKind::Ai).len(), 3);
    for f in run.fish.iter() {
        match f.kind {
            FishKind::Ai => assert_eq!(f.fish_ref, 100),
            FishKind::Human => assert!((1..=3).contains(&f.fish_ref)),
        }
    }
}

/// Scenario: a level-1 run needs three targets before three mistakes.
/// Catching all three AI cards wins.
#[test]
fn scenario_catching_every_impostor_wins_the_run() {
    let mut run = level_one_run();
    let ai = instances_of(&run, FishKind::Ai);
    for (n, id) in ai.iter().enumerate() {
        let out = catch_fish(&mut run, 7, *id, 1).unwrap();
        assert_eq!(out.correct, Some(true));
        assert!(!out.caught_already);
        assert_eq!(out.targets_found, n as i32 + 1);
        assert_eq!(out.mistakes, 0);
        if n < 2 {
            assert_eq!(out.status, RunStatus::Active);
        } else {
            assert_eq!(out.status, RunStatus::Victory);
        }
    }
    assert_eq!(run.status, RunStatus::Victory);
    // A finished run no longer judges catches.
    let human = instances_of(&run, FishKind::Human);
    let out = catch_fish(&mut run, 7, human[0], 2).unwrap();
    assert_eq!(out.correct, None);
    assert!(!out.caught_already);
    assert_eq!(out.status, RunStatus::Victory);
}

/// Scenario: three incorrect catches first lose the run regardless of the
/// remaining uncaught cards.
#[test]
fn scenario_three_mistakes_lose_the_run() {
    let mut run = level_one_run();
    let human = instances_of(&run, FishKind::Human);
    for (n, id) in human.iter().take(3).enumerate() {
        let out = catch_fish(&mut run, 7, *id, 1).unwrap();
        assert_eq!(out.correct, Some(false));
        assert_eq!(out.mistakes, n as i32 + 1);
        assert_eq!(out.targets_found, 0);
        assert_eq!(out.lives_remaining, 2 - n as i32);
        if n < 2 {
            assert_eq!(out.status, RunStatus::Active);
        } else {
            assert_eq!(out.status, RunStatus::Defeat);
        }
    }
    assert_eq!(run.status, RunStatus::Defeat);
}

#[test]
fn a_second_catch_on_the_same_card_replays_idempotently() {
    let mut run = level_one_run();
    let ai = instances_of(&run, FishKind::Ai);
    let first = catch_fish(&mut run, 7, ai[0], 1).unwrap();
    assert_eq!(first.correct, Some(true));
    assert_eq!(first.targets_found, 1);
    let second = catch_fish(&mut run, 7, ai[0], 1).unwrap();
    assert_eq!(second.correct, None);
    assert!(second.caught_already);
    assert_eq!(second.targets_found, 1);
    assert_eq!(second.mistakes, 0);
    assert_eq!(run.targets_found, 1);
}

#[test]
fn catches_are_rejected_for_foreign_runs_and_unknown_cards() {
    let mut run = level_one_run();
    assert_eq!(catch_fish(&mut run, 8, 0, 1).unwrap_err(), RunError::RunNotFound);
    assert_eq!(catch_fish(&mut run, 7, 999, 1).unwrap_err(), RunError::FishNotFound);
}

#[test]
fn a_lapsed_deadline_expires_the_run_on_the_next_catch() {
    let mut run = level_one_run();
    let out = catch_fish(&mut run, 7, 0, 60_001).unwrap();
    assert_eq!(out.correct, None);
    assert!(!out.caught_already);
    assert_eq!(out.status, RunStatus::Expired);
    assert_eq!(run.status, RunStatus::Expired);
}

#[test]
fn submit_finalizes_once_and_stays_stamped() {
    let mut run = level_one_run();
    assert_eq!(submit_run(&mut run, 7, 10).unwrap_err(), RunError::RunNotFinished);
    assert_eq!(submit_run(&mut run, 8, 10).unwrap_err(), RunError::RunNotFound);
    let ai = instances_of(&run, FishKind::Ai);
    for id in ai.iter() {
        catch_fish(&mut run, 7, *id, 1).unwrap();
    }
    let first = submit_run(&mut run, 7, 20).unwrap();
    assert_eq!(first.status, RunStatus::Victory);
    assert_eq!(first.submitted_at, 20);
    assert_eq!(first.targets_found, 3);
    // A repeated submit keeps the first stamp.
    let again = submit_run(&mut run, 7, 99).unwrap();
    assert_eq!(again.submitted_at, 20);
    assert_eq!(again.status, RunStatus::Victory);
}

#[test]
fn submit_resolves_a_lapsed_deadline_to_expired() {
    let mut run = level_one_run();
    let out = submit_run(&mut run, 7, 60_000).unwrap();
    assert_eq!(out.status, RunStatus::Expired);
    assert_eq!(out.submitted_at, 60_000);
    assert_eq!(run.status, RunStatus::Expired);
}
