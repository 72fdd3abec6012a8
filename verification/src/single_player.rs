//! The single-player run engine: a timed catch-the-impostor challenge.
//!
//! A run is created from a level's fixed configuration with a shuffled card
//! sequence, then mutated only through `catch_fish` and `submit_run`. The
//! storage layer serializes concurrent requests on one run with an exclusive
//! row lock; each function here is the critical section executed under it.
//! A run is terminal once its status leaves `Active`.

use vstd::prelude::*;

use crate::entry::{count_where, lemma_count_permutation, lemma_count_push, lemma_count_take_step};
use crate::random::{pick_index, shuffle_slots};
use crate::room::MAX_TIME;

verus! {

/// Who authored a fish card.
#[derive(Clone, Copy, Debug, PartialEq, Eq, Structural)]
pub enum FishKind {
    Human,
    Ai,
}

/// A selected backing fish, before it becomes a card of a concrete run.
#[derive(Clone, Copy, Debug, PartialEq, Eq, Structural)]
pub struct FishSlot {
    pub fish_ref: u64,
    pub kind: FishKind,
}

/// Lifecycle of a run; every status but `Active` is terminal.
#[derive(Clone, Copy, Debug, PartialEq, Eq, Structural)]
pub enum RunStatus {
    Active,
    Victory,
    Defeat,
    Expired,
}

/// The fixed per-level table.
#[derive(Clone, Copy, Debug, PartialEq, Eq, Structural)]
pub struct LevelConfig {
    pub total: i32,
    pub ai: i32,
    pub seconds: i32,
    pub max_mistakes: i32,
    pub target_total: i32,
    pub difficulty_level: i32,
}

pub open spec fn spec_level_config(level: i32) -> Option<LevelConfig> {
    if level == 1 {
        Some(
            LevelConfig {
                total: 10,
                ai: 3,
                seconds: 60,
                max_mistakes: 3,
                target_total: 3,
                difficulty_level: 1,
            },
        )
    } else if level == 2 {
        Some(
            LevelConfig {
                total: 20,
                ai: 5,
                seconds: 60,
                max_mistakes: 3,
                target_total: 3,
                difficulty_level: 2,
            },
        )
    } else if level == 3 {
        Some(
            LevelConfig {
                total: 30,
                ai: 7,
                seconds: 60,
                max_mistakes: 3,
                target_total: 3,
                difficulty_level: 3,
            },
        )
    } else {
        None
    }
}

/// The fixed configuration of a level, or nothing for an unknown level.
pub fn level_config(level: i32) -> (r: Option<LevelConfig>)
    ensures
        r == spec_level_config(level),
{
    if level == 1 {
        Some(
            LevelConfig {
                total: 10,
                ai: 3,
                seconds: 60,
                max_mistakes: 3,
                target_total: 3,
                difficulty_level: 1,
            },
        )
    } else if level == 2 {
        Some(
            LevelConfig {
                total: 20,
                ai: 5,
                seconds: 60,
                max_mistakes: 3,
                target_total: 3,
                difficulty_level: 2,
            },
        )
    } else if level == 3 {
        Some(
            LevelConfig {
                total: 30,
                ai: 7,
                seconds: 60,
                max_mistakes: 3,
                target_total: 3,
                difficulty_level: 3,
            },
        )
    } else {
        None
    }
}

/// One card of a run. The membership and order of a run's cards are fixed at
/// start; only `is_caught` and `caught_at` ever change, and only once.
#[derive(Clone, Copy, Debug, PartialEq, Eq, Structural)]
pub struct RunFish {
    pub instance_id: u64,
    pub fish_ref: u64,
    pub kind: FishKind,
    pub order_index: usize,
    pub is_caught: bool,
    pub caught_at: Option<i64>,
}

/// A single-player run.
#[derive(Debug)]
pub struct Run {
    pub id: u64,
    /// The session that owns this run; nobody else may act on it.
    pub session_id: u64,
    pub level: i32,
    pub status: RunStatus,
    pub max_mistakes: i32,
    pub mistakes: i32,
    pub target_total: i32,
    pub targets_found: i32,
    pub started_at: i64,
    pub ends_at: i64,
    pub submitted_at: Option<i64>,
    pub fish: Vec<RunFish>,
}

/// The mathematical model of a run.
#[verifier::ext_equal]
pub ghost struct RunModel {
    pub id: u64,
    pub session_id: u64,
    pub level: i32,
    pub status: RunStatus,
    pub max_mistakes: i32,
    pub mistakes: i32,
    pub target_total: i32,
    pub targets_found: i32,
    pub started_at: i64,
    pub ends_at: i64,
    pub submitted_at: Option<i64>,
    pub fish: Seq<RunFish>,
}

impl View for Run {
    type V = RunModel;

    open spec fn view(&self) -> RunModel {
        RunModel {
            id: self.id,
            session_id: self.session_id,
            level: self.level,
            status: self.status,
            max_mistakes: self.max_mistakes,
            mistakes: self.mistakes,
            target_total: self.target_total,
            targets_found: self.targets_found,
            started_at: self.started_at,
            ends_at: self.ends_at,
            submitted_at: self.submitted_at,
            fish: self.fish@,
        }
    }
}

/// The run invariant: counters within their bounds, an active run strictly
/// short of both its limits, distinct card instances, and the immutable card
/// order.
pub open spec fn run_wf(m: RunModel) -> bool {
    &&& 0 <= m.mistakes <= m.max_mistakes
    &&& 0 <= m.targets_found <= m.target_total
    &&& (m.status is Active ==> m.mistakes < m.max_mistakes && m.targets_found < m.target_total)
    &&& forall|i: int, j: int|
        0 <= i < j < m.fish.len() ==> (#[trigger] m.fish[i]).instance_id != (
        #[trigger] m.fish[j]).instance_id
    &&& forall|i: int| 0 <= i < m.fish.len() ==> (#[trigger] m.fish[i]).order_index == i
}

pub open spec fn has_fish(fish: Seq<RunFish>, instance_id: u64) -> bool {
    exists|i: int| 0 <= i < fish.len() && fish[i].instance_id == instance_id
}

/// The index of a card instance; meaningful when the run holds it.
pub open spec fn fish_index(fish: Seq<RunFish>, instance_id: u64) -> int {
    choose|i: int| 0 <= i < fish.len() && fish[i].instance_id == instance_id
}

pub proof fn lemma_fish_index_unique(fish: Seq<RunFish>, instance_id: u64, i: int)
    requires
        forall|a: int, b: int|
            0 <= a < b < fish.len() ==> (#[trigger] fish[a]).instance_id != (
            #[trigger] fish[b]).instance_id,
        0 <= i < fish.len(),
        fish[i].instance_id == instance_id,
    ensures
        fish_index(fish, instance_id) == i,
        has_fish(fish, instance_id),
{
    assert(has_fish(fish, instance_id));
    let j = fish_index(fish, instance_id);
    if i < j {
        assert(fish[i].instance_id != fish[j].instance_id);
    } else if j < i {
        assert(fish[j].instance_id != fish[i].instance_id);
    }
}

/// Finds the position of a card instance.
fn find_fish(fish: &Vec<RunFish>, instance_id: u64) -> (r: Option<usize>)
    ensures
        match r {
            Some(k) => k < fish@.len() && fish@[k as int].instance_id == instance_id,
            None => !has_fish(fish@, instance_id),
        },
{
    let n = fish.len();
    let mut i: usize = 0;
    while i < n
        invariant
            n == fish@.len(),
            i <= n,
            forall|j: int| 0 <= j < i ==> (#[trigger] fish@[j]).instance_id != instance_id,
        decreases n - i,
    {
        if fish[i].instance_id == instance_id {
            return Some(i);
        }
        i += 1;
    }
    None
}

// ---------------------------------------------------------------------------
// Errors and outcomes.
// ---------------------------------------------------------------------------

/// Why a run could not be started.
#[derive(Clone, Copy, Debug, PartialEq, Eq, Structural)]
pub enum StartError {
    /// The level is not in the table.
    InvalidLevel,
    /// The level asks for more AI cards than cards in total.
    InvalidLevelConfig,
    /// No human-authored items at all while some are needed.
    NotEnoughHumanFish,
    /// No AI-authored items at all while some are needed.
    NotEnoughAiFish,
    /// Too few distinct items, and this level may not pad with duplicates.
    NotEnoughFish,
}

/// Why a catch or submit was rejected. An unknown run and a run owned by
/// another session are indistinguishable to the caller.
#[derive(Clone, Copy, Debug, PartialEq, Eq, Structural)]
pub enum RunError {
    RunNotFound,
    FishNotFound,
    /// Submit before the run is finished.
    RunNotFinished,
}

/// What a catch reports back. `correct` is absent when the run is no longer
/// active or the card was already caught (an idempotent replay).
#[derive(Clone, Copy, Debug, PartialEq, Eq, Structural)]
pub struct CatchOutcome {
    pub correct: Option<bool>,
    pub caught_already: bool,
    pub lives_remaining: i32,
    pub mistakes: i32,
    pub targets_found: i32,
    pub target_total: i32,
    pub status: RunStatus,
    pub ends_at: i64,
}

/// What a submit reports back.
#[derive(Clone, Copy, Debug, PartialEq, Eq, Structural)]
pub struct SubmitRunOk {
    pub status: RunStatus,
    pub started_at: i64,
    pub ends_at: i64,
    pub submitted_at: i64,
    pub mistakes: i32,
    pub max_mistakes: i32,
    pub targets_found: i32,
    pub target_total: i32,
}

// ---------------------------------------------------------------------------
// Catch.
// ---------------------------------------------------------------------------

/// A run after the lazy deadline check: an active run past its deadline
/// expires.
pub open spec fn spec_run_expire(m: RunModel, now: i64) -> RunModel {
    if m.status is Active && now > m.ends_at {
        RunModel { status: RunStatus::Expired, ..m }
    } else {
        m
    }
}

/// The outcome fields read off a run without mutating it.
pub open spec fn spec_catch_noop_outcome(
    m: RunModel,
    caught_already: bool,
) -> CatchOutcome {
    CatchOutcome {
        correct: None,
        caught_already,
        lives_remaining: (m.max_mistakes - m.mistakes) as i32,
        mistakes: m.mistakes,
        targets_found: m.targets_found,
        target_total: m.target_total,
        status: m.status,
        ends_at: m.ends_at,
    }
}

/// A run after an effective catch of the uncaught card `instance_id` at
/// `now`: the card flips to caught exactly once, a correct catch (an AI
/// card) counts toward the target, an incorrect one costs a life, and the
/// status is recomputed with victory taking priority over defeat.
pub open spec fn spec_catch_apply(m: RunModel, instance_id: u64, now: i64) -> RunModel {
    let k = fish_index(m.fish, instance_id);
    let f = m.fish[k];
    let correct = f.kind is Ai;
    let caught = RunFish { is_caught: true, caught_at: Some(now), ..f };
    let new_mistakes = if correct {
        m.mistakes as int
    } else {
        m.mistakes + 1
    };
    let new_targets = if correct {
        m.targets_found + 1
    } else {
        m.targets_found as int
    };
    let new_status = if new_targets >= m.target_total {
        RunStatus::Victory
    } else if new_mistakes >= m.max_mistakes {
        RunStatus::Defeat
    } else {
        RunStatus::Active
    };
    RunModel {
        mistakes: new_mistakes as i32,
        targets_found: new_targets as i32,
        status: new_status,
        fish: m.fish.update(k, caught),
        ..m
    }
}

/// What a catch returns: rejected for a foreign or unknown run, or for an
/// unknown card of an active run; a no-op with `correct == None` once the
/// run is not active (counting a lapsed deadline); an idempotent
/// `caught_already` replay for a card already caught; otherwise the applied
/// catch.
pub open spec fn spec_catch_result(
    m: RunModel,
    session_id: u64,
    instance_id: u64,
    now: i64,
) -> Result<CatchOutcome, RunError> {
    if m.session_id != session_id {
        Err(RunError::RunNotFound)
    } else {
        let m1 = spec_run_expire(m, now);
        if !(m1.status is Active) {
            Ok(spec_catch_noop_outcome(m1, false))
        } else if !has_fish(m1.fish, instance_id) {
            Err(RunError::FishNotFound)
        } else if m1.fish[fish_index(m1.fish, instance_id)].is_caught {
            Ok(spec_catch_noop_outcome(m1, true))
        } else {
            let m2 = spec_catch_apply(m1, instance_id, now);
            Ok(
                CatchOutcome {
                    correct: Some(m1.fish[fish_index(m1.fish, instance_id)].kind is Ai),
                    caught_already: false,
                    lives_remaining: (m2.max_mistakes - m2.mistakes) as i32,
                    mistakes: m2.mistakes,
                    targets_found: m2.targets_found,
                    target_total: m2.target_total,
                    status: m2.status,
                    ends_at: m2.ends_at,
                },
            )
        }
    }
}

/// The run state after a catch request.
pub open spec fn spec_catch_state(
    m: RunModel,
    session_id: u64,
    instance_id: u64,
    now: i64,
) -> RunModel {
    if m.session_id != session_id {
        m
    } else {
        let m1 = spec_run_expire(m, now);
        if !(m1.status is Active) {
            m1
        } else if !has_fish(m1.fish, instance_id) {
            m1
        } else if m1.fish[fish_index(m1.fish, instance_id)].is_caught {
            m1
        } else {
            spec_catch_apply(m1, instance_id, now)
        }
    }
}

/// Catches one card of a run. Runs under the run's exclusive lock, so two
/// concurrent catches on the same card execute one after another: the first
/// mutates the run, the second sees `caught_already` and mutates nothing.
pub fn catch_fish(run: &mut Run, session_id: u64, fish_instance_id: u64, now: i64) -> (r: Result<
    CatchOutcome,
    RunError,
>)
    requires
        run_wf(old(run)@),
    ensures
        r == spec_catch_result(old(run)@, session_id, fish_instance_id, now),
        final(run)@ == spec_catch_state(old(run)@, session_id, fish_instance_id, now),
        run_wf(final(run)@),
{
    let ghost m0 = run@;
    if run.session_id != session_id {
        return Err(RunError::RunNotFound);
    }
    if matches!(run.status, RunStatus::Active) && now > run.ends_at {
        run.status = RunStatus::Expired;
    }
    let ghost m1 = run@;
    proof {
        assert(m1 =~= spec_run_expire(m0, now));
    }
    if !matches!(run.status, RunStatus::Active) {
        return Ok(
            CatchOutcome {
                correct: None,
                caught_already: false,
                lives_remaining: run.max_mistakes - run.mistakes,
                mistakes: run.mistakes,
                targets_found: run.targets_found,
                target_total: run.target_total,
                status: run.status,
                ends_at: run.ends_at,
            },
        );
    }
    let k = match find_fish(&run.fish, fish_instance_id) {
        Some(k) => k,
        None => {
            return Err(RunError::FishNotFound);
        },
    };
    proof {
        lemma_fish_index_unique(m1.fish, fish_instance_id, k as int);
    }
    let f = run.fish[k];
    if f.is_caught {
        return Ok(
            CatchOutcome {
                correct: None,
                caught_already: true,
                lives_remaining: run.max_mistakes - run.mistakes,
                mistakes: run.mistakes,
                targets_found: run.targets_found,
                target_total: run.target_total,
                status: run.status,
                ends_at: run.ends_at,
            },
        );
    }
    let correct = matches!(f.kind, FishKind::Ai);
    run.fish.remove(k);
    run.fish.insert(k, RunFish { is_caught: true, caught_at: Some(now), ..f });
    proof {
        assert(run.fish@ =~= m1.fish.update(
            k as int,
            RunFish { is_caught: true, caught_at: Some(now), ..f },
        ));
    }
    if correct {
        run.targets_found = run.targets_found + 1;
    } else {
        run.mistakes = run.mistakes + 1;
    }
    run.status = if run.targets_found >= run.target_total {
        RunStatus::Victory
    } else if run.mistakes >= run.max_mistakes {
        RunStatus::Defeat
    } else {
        RunStatus::Active
    };
    proof {
        assert(run@ =~= spec_catch_apply(m1, fish_instance_id, now));
    }
    Ok(
        CatchOutcome {
            correct: Some(correct),
            caught_already: false,
            lives_remaining: run.max_mistakes - run.mistakes,
            mistakes: run.mistakes,
            targets_found: run.targets_found,
            target_total: run.target_total,
            status: run.status,
            ends_at: run.ends_at,
        },
    )
}

// ---------------------------------------------------------------------------
// Submit.
// ---------------------------------------------------------------------------

/// Whether a run counts as naturally finished at `now`.
pub open spec fn spec_run_finished(m: RunModel, now: i64) -> bool {
    ||| !(m.status is Active)
    ||| now >= m.ends_at
    ||| m.targets_found >= m.target_total
    ||| m.mistakes >= m.max_mistakes
}

/// The status a submit finalizes: victory and defeat from the counters, with
/// a lapsed deadline resolving to expired last.
pub open spec fn spec_final_status(m: RunModel, now: i64) -> RunStatus {
    if m.targets_found >= m.target_total {
        RunStatus::Victory
    } else if m.mistakes >= m.max_mistakes {
        RunStatus::Defeat
    } else if now >= m.ends_at {
        RunStatus::Expired
    } else {
        m.status
    }
}

/// What a submit returns: rejected for a foreign run or a run still in
/// progress; otherwise the finalized status, with the submission time
/// stamped only once (a repeated submit keeps the first stamp).
pub open spec fn spec_submit_run_result(m: RunModel, session_id: u64, now: i64) -> Result<
    SubmitRunOk,
    RunError,
> {
    if m.session_id != session_id {
        Err(RunError::RunNotFound)
    } else if !spec_run_finished(m, now) {
        Err(RunError::RunNotFinished)
    } else {
        Ok(
            SubmitRunOk {
                status: spec_final_status(m, now),
                started_at: m.started_at,
                ends_at: m.ends_at,
                submitted_at: if m.submitted_at is Some {
                    m.submitted_at->0
                } else {
                    now
                },
                mistakes: m.mistakes,
                max_mistakes: m.max_mistakes,
                targets_found: m.targets_found,
                target_total: m.target_total,
            },
        )
    }
}

/// The run state after a submit request.
pub open spec fn spec_submit_run_state(m: RunModel, session_id: u64, now: i64) -> RunModel {
    match spec_submit_run_result(m, session_id, now) {
        Err(_) => m,
        Ok(ok) => RunModel {
            status: ok.status,
            submitted_at: Some(ok.submitted_at),
            ..m
        },
    }
}

/// Submits a finished run: finalizes its status and stamps the submission
/// time idempotently.
pub fn submit_run(run: &mut Run, session_id: u64, now: i64) -> (r: Result<SubmitRunOk, RunError>)
    requires
        run_wf(old(run)@),
    ensures
        r == spec_submit_run_result(old(run)@, session_id, now),
        final(run)@ == spec_submit_run_state(old(run)@, session_id, now),
        run_wf(final(run)@),
{
    let ghost m0 = run@;
    if run.session_id != session_id {
        return Err(RunError::RunNotFound);
    }
    let finished = !matches!(run.status, RunStatus::Active) || now >= run.ends_at
        || run.targets_found >= run.target_total || run.mistakes >= run.max_mistakes;
    if !finished {
        return Err(RunError::RunNotFinished);
    }
    let final_status = if run.targets_found >= run.target_total {
        RunStatus::Victory
    } else if run.mistakes >= run.max_mistakes {
        RunStatus::Defeat
    } else if now >= run.ends_at {
        RunStatus::Expired
    } else {
        run.status
    };
    run.status = final_status;
    let submitted_at = match run.submitted_at {
        Some(t) => t,
        None => now,
    };
    run.submitted_at = Some(submitted_at);
    proof {
        assert(run@ =~= spec_submit_run_state(m0, session_id, now));
    }
    Ok(
        SubmitRunOk {
            status: final_status,
            started_at: run.started_at,
            ends_at: run.ends_at,
            submitted_at,
            mistakes: run.mistakes,
            max_mistakes: run.max_mistakes,
            targets_found: run.targets_found,
            target_total: run.target_total,
        },
    )
}

// ---------------------------------------------------------------------------
// Start.
// ---------------------------------------------------------------------------

pub open spec fn pred_slot_ai() -> spec_fn(FishSlot) -> bool {
    |s: FishSlot| s.kind is Ai
}

pub open spec fn pred_slot_human() -> spec_fn(FishSlot) -> bool {
    |s: FishSlot| s.kind is Human
}

pub open spec fn pred_fish_ai() -> spec_fn(RunFish) -> bool {
    |f: RunFish| f.kind is Ai
}

pub open spec fn pred_fish_human() -> spec_fn(RunFish) -> bool {
    |f: RunFish| f.kind is Human
}

/// Why a start fails, if it does: errors depend only on the level, the pool
/// sizes and the duplicate policy, never on chance.
pub open spec fn spec_start_error(
    level: i32,
    n_humans: nat,
    n_ais: nat,
    allow_duplicates: bool,
) -> Option<StartError> {
    match spec_level_config(level) {
        None => Some(StartError::InvalidLevel),
        Some(cfg) => {
            let needed = cfg.total - cfg.ai;
            if needed < 0 {
                Some(StartError::InvalidLevelConfig)
            } else if n_humans == 0 && needed > 0 {
                Some(StartError::NotEnoughHumanFish)
            } else if n_ais == 0 && cfg.ai > 0 {
                Some(StartError::NotEnoughAiFish)
            } else if (n_humans < needed || n_ais < cfg.ai) && !allow_duplicates {
                Some(StartError::NotEnoughFish)
            } else {
                None
            }
        },
    }
}

/// Everything a fresh run promises: the level's configuration, untouched
/// counters, a full card sequence with exactly the level's AI share, every
/// card drawn from the sampled pools, and positions fixed for the run's
/// lifetime.
pub open spec fn spec_run_started(
    run: RunModel,
    run_id: u64,
    session_id: u64,
    level: i32,
    now: i64,
    humans: Seq<u64>,
    ais: Seq<u64>,
) -> bool {
    let cfg = spec_level_config(level)->0;
    &&& run.id == run_id
    &&& run.session_id == session_id
    &&& run.level == level
    &&& run.status is Active
    &&& run.max_mistakes == cfg.max_mistakes
    &&& run.mistakes == 0
    &&& run.target_total == cfg.target_total
    &&& run.targets_found == 0
    &&& run.started_at == now
    &&& run.ends_at == now + cfg.seconds * 1000
    &&& run.submitted_at is None
    &&& run.fish.len() == cfg.total
    &&& count_where(run.fish, pred_fish_ai()) == cfg.ai
    &&& count_where(run.fish, pred_fish_human()) == cfg.total - cfg.ai
    &&& forall|i: int|
        0 <= i < run.fish.len() ==> {
            let f = #[trigger] run.fish[i];
            &&& f.order_index == i
            &&& f.instance_id == i
            &&& !f.is_caught
            &&& f.caught_at is None
            &&& (f.kind is Ai ==> ais.contains(f.fish_ref))
            &&& (f.kind is Human ==> humans.contains(f.fish_ref))
        }
}

/// Starts a run for `session_id` at `level`: validates the level, pads the
/// sampled pools by resampling with replacement where the level allows
/// duplicates, interleaves human and AI cards into a random order fixed for
/// the run's lifetime, and stamps the deadline. The caller samples at most
/// the needed number of items of each kind.
pub fn start_run(
    run_id: u64,
    session_id: u64,
    level: i32,
    now: i64,
    humans: Vec<u64>,
    ais: Vec<u64>,
    allow_duplicates: bool,
) -> (r: Result<Run, StartError>)
    requires
        -MAX_TIME <= now <= MAX_TIME,
        spec_level_config(level) matches Some(cfg) ==> humans@.len() <= cfg.total - cfg.ai
            && ais@.len() <= cfg.ai,
    ensures
        r is Err <==> spec_start_error(level, humans@.len(), ais@.len(), allow_duplicates)
            is Some,
        r matches Err(e) ==> Some(e) == spec_start_error(
            level,
            humans@.len(),
            ais@.len(),
            allow_duplicates,
        ),
        r matches Ok(run) ==> spec_run_started(
            run@,
            run_id,
            session_id,
            level,
            now,
            humans@,
            ais@,
        ) && run_wf(run@),
{
    let ghost humans0 = humans@;
    let ghost ais0 = ais@;
    let cfg = match level_config(level) {
        Some(c) => c,
        None => {
            return Err(StartError::InvalidLevel);
        },
    };
    let human_needed = cfg.total - cfg.ai;
    if human_needed < 0 {
        return Err(StartError::InvalidLevelConfig);
    }
    if humans.len() == 0 && human_needed > 0 {
        return Err(StartError::NotEnoughHumanFish);
    }
    if ais.len() == 0 && cfg.ai > 0 {
        return Err(StartError::NotEnoughAiFish);
    }
    if (humans.len() < human_needed as usize || ais.len() < cfg.ai as usize) && !allow_duplicates {
        return Err(StartError::NotEnoughFish);
    }
    // Pad each pool by resampling with replacement.
    let mut hpool = humans;
    while hpool.len() < human_needed as usize
        invariant
            human_needed > 0 ==> hpool@.len() >= 1,
            hpool@.len() <= human_needed,
            forall|i: int| 0 <= i < hpool@.len() ==> humans0.contains(#[trigger] hpool@[i]),
        decreases human_needed as int - hpool@.len(),
    {
        let j = pick_index(hpool.len());
        let v = hpool[j];
        hpool.push(v);
    }
    let mut apool = ais;
    while apool.len() < cfg.ai as usize
        invariant
            cfg.ai > 0 ==> apool@.len() >= 1,
            apool@.len() <= cfg.ai,
            forall|i: int| 0 <= i < apool@.len() ==> ais0.contains(#[trigger] apool@[i]),
        decreases cfg.ai as int - apool@.len(),
    {
        let j = pick_index(apool.len());
        let v = apool[j];
        apool.push(v);
    }
    // Interleave the selected cards into a random fixed order.
    let mut slots: Vec<FishSlot> = Vec::new();
    let mut i: usize = 0;
    let hn = hpool.len();
    while i < hn
        invariant
            hn == hpool@.len(),
            i <= hn,
            slots@.len() == i,
            count_where(slots@, pred_slot_ai()) == 0,
            count_where(slots@, pred_slot_human()) == i,
            forall|j: int|
                0 <= j < slots@.len() ==> {
                    let s = #[trigger] slots@[j];
                    (s.kind is Ai ==> ais0.contains(s.fish_ref)) && (s.kind is Human
                        ==> humans0.contains(s.fish_ref))
                },
            forall|j: int| 0 <= j < hpool@.len() ==> humans0.contains(#[trigger] hpool@[j]),
        decreases hn - i,
    {
        let slot = FishSlot { fish_ref: hpool[i], kind: FishKind::Human };
        proof {
            lemma_count_push(slots@, pred_slot_ai(), slot);
            lemma_count_push(slots@, pred_slot_human(), slot);
        }
        slots.push(slot);
        i += 1;
    }
    let mut i: usize = 0;
    let an = apool.len();
    while i < an
        invariant
            an == apool@.len(),
            hn == hpool@.len(),
            i <= an,
            slots@.len() == hn + i,
            count_where(slots@, pred_slot_ai()) == i,
            count_where(slots@, pred_slot_human()) == hn,
            forall|j: int|
                0 <= j < slots@.len() ==> {
                    let s = #[trigger] slots@[j];
                    (s.kind is Ai ==> ais0.contains(s.fish_ref)) && (s.kind is Human
                        ==> humans0.contains(s.fish_ref))
                },
            forall|j: int| 0 <= j < apool@.len() ==> ais0.contains(#[trigger] apool@[j]),
        decreases an - i,
    {
        let slot = FishSlot { fish_ref: apool[i], kind: FishKind::Ai };
        proof {
            lemma_count_push(slots@, pred_slot_ai(), slot);
            lemma_count_push(slots@, pred_slot_human(), slot);
        }
        slots.push(slot);
        i += 1;
    }
    let ghost unshuffled = slots@;
    shuffle_slots(&mut slots);
    proof {
        lemma_count_permutation(slots@, unshuffled, pred_slot_ai());
        lemma_count_permutation(slots@, unshuffled, pred_slot_human());
        unshuffled.to_multiset_ensures();
        slots@.to_multiset_ensures();
        assert forall|j: int| 0 <= j < slots@.len() implies {
            let s = #[trigger] slots@[j];
            (s.kind is Ai ==> ais0.contains(s.fish_ref)) && (s.kind is Human ==> humans0.contains(
                s.fish_ref,
            ))
        } by {
            let s = slots@[j];
            assert(slots@.contains(s));
            assert(slots@.to_multiset().count(s) > 0);
            assert(unshuffled.contains(s));
            let j0 = choose|j0: int| 0 <= j0 < unshuffled.len() && unshuffled[j0] == s;
            assert(unshuffled[j0] == s);
        }
        assert(slots@.len() == unshuffled.to_multiset().len());
    }
    // Persist the order as the run's card rows.
    let total = slots.len();
    let mut fish: Vec<RunFish> = Vec::new();
    let mut i: usize = 0;
    while i < total
        invariant
            total == slots@.len(),
            i <= total,
            fish@.len() == i,
            count_where(fish@, pred_fish_ai()) == count_where(slots@.take(i as int), pred_slot_ai()),
            count_where(fish@, pred_fish_human()) == count_where(
                slots@.take(i as int),
                pred_slot_human(),
            ),
            forall|j: int|
                0 <= j < fish@.len() ==> {
                    let f = #[trigger] fish@[j];
                    &&& f.order_index == j
                    &&& f.instance_id == j
                    &&& !f.is_caught
                    &&& f.caught_at is None
                    &&& f.kind == slots@[j].kind
                    &&& f.fish_ref == slots@[j].fish_ref
                },
        decreases total - i,
    {
        let slot = slots[i];
        let card = RunFish {
            instance_id: i as u64,
            fish_ref: slot.fish_ref,
            kind: slot.kind,
            order_index: i,
            is_caught: false,
            caught_at: None,
        };
        proof {
            lemma_count_push(fish@, pred_fish_ai(), card);
            lemma_count_push(fish@, pred_fish_human(), card);
            lemma_count_take_step(slots@, pred_slot_ai(), i as int);
            lemma_count_take_step(slots@, pred_slot_human(), i as int);
        }
        fish.push(card);
        i += 1;
    }
    proof {
        crate::entry::lemma_count_take_all(slots@, pred_slot_ai());
        crate::entry::lemma_count_take_all(slots@, pred_slot_human());
    }
    let ends_at = now + (cfg.seconds as i64) * 1000;
    let run = Run {
        id: run_id,
        session_id,
        level,
        status: RunStatus::Active,
        max_mistakes: cfg.max_mistakes,
        mistakes: 0,
        target_total: cfg.target_total,
        targets_found: 0,
        started_at: now,
        ends_at,
        submitted_at: None,
        fish,
    };
    Ok(run)
}

} // verus!
