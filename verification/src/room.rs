//! Room rows and game configuration.
//!
//! A room moves through the phases `Active` (submitting) → `Voting` →
//! `Gameover`; `Gameover` is terminal. The timestamps `voting_started_at` and
//! `voting_ends_at` are both set exactly while the room is in the `Voting`
//! phase. All timestamps are milliseconds on an arbitrary epoch, and the
//! caller supplies the current time to every time-sensitive operation.

use vstd::prelude::*;

use crate::policy::MAX_COUNT;

verus! {

/// Timestamps handed to the engine stay within this bound, so that adding a
/// configured duration to one never overflows an `i64`.
pub const MAX_TIME: i64 = 0x2000_0000_0000_0000;

/// Floor on the configured voting-phase duration.
pub const MIN_VOTING_MILLIS: i64 = 5_000;

/// Floor on the configured submission-phase duration.
pub const MIN_SUBMIT_MILLIS: i64 = 10_000;

#[derive(Clone, Copy, Debug, PartialEq, Eq, Structural)]
pub enum RoomStatus {
    /// The submission phase: entries may be added, votes may not be cast.
    Active,
    /// The voting phase: votes may be cast and retracted.
    Voting,
    /// Terminal: a win or loss condition was reached.
    Gameover,
}

impl Default for RoomStatus {
    fn default() -> (r: Self)
        ensures
            r == RoomStatus::Active,
    {
        RoomStatus::Active
    }
}

impl RoomStatus {
    /// The phase as the store and the wire carry it.
    pub fn code(&self) -> (r: String)
        ensures
            self is Active ==> r@ == "active"@,
            self is Voting ==> r@ == "voting"@,
            self is Gameover ==> r@ == "gameover"@,
    {
        match self {
            RoomStatus::Active => "active".to_owned(),
            RoomStatus::Voting => "voting".to_owned(),
            RoomStatus::Gameover => "gameover".to_owned(),
        }
    }
}

/// The phase a stored code names; anything unknown counts as the submission
/// phase.
pub fn status_from_code(code: &str) -> (r: RoomStatus)
    ensures
        code@ == "voting"@ ==> r is Voting,
        code@ == "gameover"@ ==> r is Gameover,
        code@ != "voting"@ && code@ != "gameover"@ ==> r is Active,
{
    proof {
        reveal_strlit("voting");
        reveal_strlit("gameover");
        assert("voting"@.len() == 6);
        assert("gameover"@.len() == 8);
        assert("voting"@ != "gameover"@);
    }
    if crate::strutil::str_eq(code, "voting") {
        RoomStatus::Voting
    } else if crate::strutil::str_eq(code, "gameover") {
        RoomStatus::Gameover
    } else {
        RoomStatus::Active
    }
}

/// Game policy configuration. Ratios are integer per-mille values; durations
/// are milliseconds.
#[derive(Clone, Copy, Debug, PartialEq, Eq, Structural)]
pub struct GameConfig {
    /// Share of the online count whose ceiling a vote tally must reach to
    /// eliminate an entry.
    pub vote_threshold_ratio: i64,
    /// Lower bound on the vote threshold.
    pub vote_min_threshold: i64,
    /// Share of the human total whose ceiling of eliminated humans loses the
    /// room.
    pub human_eliminated_ratio: i64,
    /// Share of the human total whose ceiling must survive for a victory.
    pub victory_human_survive_ratio: i64,
    /// Slack by which live AI entries may outnumber live human entries.
    pub ai_overflow_delta: i64,
    /// Live human entries needed to start voting before the submission
    /// deadline.
    pub min_humans_to_start_voting: i64,
    /// Length of a voting phase.
    pub voting_duration_millis: i64,
    /// Length of the submission phase, measured from room creation.
    pub submit_duration_millis: i64,
}

/// Machine bounds on a configuration: durations and the overflow slack stay
/// small enough for the engine's `i64` arithmetic.
pub open spec fn cfg_wf(cfg: GameConfig) -> bool {
    &&& cfg.voting_duration_millis <= MAX_TIME
    &&& cfg.submit_duration_millis <= MAX_TIME
    &&& cfg.ai_overflow_delta <= MAX_COUNT
}

/// A room row. `total_items`, `ai_count` and the timestamps are maintained by
/// the engine; `online_count` follows join and leave events; `turbidity` is a
/// derived AI-density metric in per-mille.
#[derive(Clone, Copy, Debug, PartialEq, Eq, Structural)]
pub struct Room {
    pub status: RoomStatus,
    pub total_items: i64,
    pub ai_count: i64,
    pub online_count: i64,
    pub turbidity: i64,
    pub voting_started_at: Option<i64>,
    pub voting_ends_at: Option<i64>,
    pub created_at: i64,
}

/// Well-formedness of a room row on its own: the voting timestamps are both
/// set exactly in the `Voting` phase, and the numeric fields stay within the
/// engine's machine bounds.
pub open spec fn room_wf(room: Room) -> bool {
    &&& (room.status is Voting) <==> (room.voting_started_at is Some)
    &&& (room.voting_started_at is Some) <==> (room.voting_ends_at is Some)
    &&& 0 <= room.online_count <= MAX_COUNT
    &&& 0 <= room.turbidity <= 1000
    &&& -MAX_TIME <= room.created_at <= MAX_TIME
}

/// The room after a game-ending transition: terminal phase, voting
/// timestamps cleared.
pub open spec fn spec_game_over_room(room: Room) -> Room {
    Room { status: RoomStatus::Gameover, voting_started_at: None, voting_ends_at: None, ..room }
}

/// The room after entering the voting phase at `now`: the deadline is `now`
/// plus the configured duration, floored at `MIN_VOTING_MILLIS`.
pub open spec fn spec_start_voting_room(room: Room, now: i64, cfg: GameConfig) -> Room {
    let dur = if cfg.voting_duration_millis >= MIN_VOTING_MILLIS {
        cfg.voting_duration_millis as int
    } else {
        MIN_VOTING_MILLIS as int
    };
    Room {
        status: RoomStatus::Voting,
        voting_started_at: Some(now),
        voting_ends_at: Some((now + dur) as i64),
        ..room
    }
}

/// The submission deadline of a room: creation time plus the configured
/// duration, floored at `MIN_SUBMIT_MILLIS`.
pub open spec fn spec_submit_deadline(room: Room, cfg: GameConfig) -> int {
    let dur = if cfg.submit_duration_millis >= MIN_SUBMIT_MILLIS {
        cfg.submit_duration_millis as int
    } else {
        MIN_SUBMIT_MILLIS as int
    };
    room.created_at + dur
}

/// A freshly created room: in the submission phase, with no entries, nobody
/// online, and no voting timestamps.
pub open spec fn spec_new_room(created_at: i64) -> Room {
    Room {
        status: RoomStatus::Active,
        total_items: 0,
        ai_count: 0,
        online_count: 0,
        turbidity: 0,
        voting_started_at: None,
        voting_ends_at: None,
        created_at,
    }
}

impl Room {
    /// A freshly created room: in the submission phase, with no entries,
    /// nobody online, and no voting timestamps.
    pub fn new(created_at: i64) -> (r: Room)
        requires
            -MAX_TIME <= created_at <= MAX_TIME,
        ensures
            r == spec_new_room(created_at),
            room_wf(r),
    {
        Room {
            status: RoomStatus::Active,
            total_items: 0,
            ai_count: 0,
            online_count: 0,
            turbidity: 0,
            voting_started_at: None,
            voting_ends_at: None,
            created_at,
        }
    }
}

} // verus!
