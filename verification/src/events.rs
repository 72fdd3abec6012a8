//! Events produced by the engine, outcome types, and error codes.
//!
//! The engine only produces events; fan-out to the sockets subscribed to a
//! room is the broadcast gateway's responsibility.

use vstd::prelude::*;

use crate::room::RoomStatus;

verus! {

/// Why a game ended.
#[derive(Clone, Copy, Debug, PartialEq, Eq, Structural)]
pub enum EndReason {
    /// Defeat: too many human entries were eliminated.
    TooManyHumansEliminated,
    /// Victory: every AI entry is gone and enough humans survive.
    Victory,
    /// Defeat: live AI entries outnumber live humans beyond the slack.
    AiOverrun,
    /// Defeat: AI generation outran the room's impostor budget.
    GenerationOverrun,
}

impl EndReason {
    /// The stable reason code carried by game-over payloads.
    pub fn code(&self) -> (r: String)
        ensures
            self is TooManyHumansEliminated ==> r@ == "too_many_human_killed"@,
            self is Victory ==> r@ == "victory"@,
            self is AiOverrun ==> r@ == "ai_overrun"@,
            self is GenerationOverrun ==> r@ == "generation_overrun"@,
    {
        match self {
            EndReason::TooManyHumansEliminated => "too_many_human_killed".to_owned(),
            EndReason::Victory => "victory".to_owned(),
            EndReason::AiOverrun => "ai_overrun".to_owned(),
            EndReason::GenerationOverrun => "generation_overrun".to_owned(),
        }
    }
}

/// A broadcast event scoped to a room. Victory and defeat always carry the
/// final counts, so a client never needs a follow-up query to explain an
/// outcome.
#[derive(Clone, Copy, Debug, PartialEq, Eq, Structural)]
pub enum GameEvent {
    /// The room changed phase.
    PhaseUpdate { status: RoomStatus, voting_started_at: Option<i64>, voting_ends_at: Option<i64> },
    /// An entry's vote tally changed.
    VoteUpdate { entry_id: u64, count: i64 },
    /// Someone voted against the entry; addressed to the entry's owner.
    VoteReceived { entry_id: u64, voter_id: u64 },
    /// The entry's tally reached the threshold and it was eliminated.
    EntryEliminated { entry_id: u64, is_ai: bool },
    /// A new entry appeared in the room.
    EntryAdded { entry_id: u64, is_ai: bool },
    /// The game ended in a victory.
    Victory { ai_remaining: i64, human_remaining: i64, human_total: i64 },
    /// The game ended in a defeat.
    Defeat { reason: EndReason, ai_remaining: i64, human_remaining: i64, human_total: i64 },
}

/// Why a cast or retract was rejected. Rejections never mutate the room.
#[derive(Clone, Copy, Debug, PartialEq, Eq, Structural)]
pub enum VoteError {
    /// No authenticated voter identity was presented.
    Unauthorized,
    /// The entry does not exist in this room.
    EntryNotFound,
    /// The entry is already eliminated; its counters are frozen.
    EntryEliminated,
    /// The room is not in the voting phase.
    NotVoting,
}

/// Successful outcome of a cast. `applied == false` is the neutral no-op a
/// duplicate cast by the same voter receives.
#[derive(Clone, Copy, Debug, PartialEq, Eq, Structural)]
pub struct CastOk {
    pub applied: bool,
    pub new_count: i64,
    pub eliminated: bool,
    pub end: Option<EndReason>,
}

/// Successful outcome of a retract. `removed == false` is the neutral no-op
/// a retract without a prior cast receives.
#[derive(Clone, Copy, Debug, PartialEq, Eq, Structural)]
pub struct RetractOk {
    pub removed: bool,
    pub new_count: i64,
}

/// Why a report was rejected.
#[derive(Clone, Copy, Debug, PartialEq, Eq, Structural)]
pub enum ReportError {
    EntryNotFound,
    /// The entry is already eliminated; its counters are frozen.
    EntryEliminated,
    /// This reporter already reported this entry.
    AlreadyReported,
}

/// Successful outcome of a report.
#[derive(Clone, Copy, Debug, PartialEq, Eq, Structural)]
pub struct ReportOk {
    pub report_count: i64,
    pub hidden: bool,
}

/// Why a submission was rejected.
#[derive(Clone, Copy, Debug, PartialEq, Eq, Structural)]
pub enum SubmitEntryError {
    /// Entries may only be submitted during the submission phase.
    RoomNotActive,
}

/// Successful outcome of a human submission.
#[derive(Clone, Copy, Debug, PartialEq, Eq, Structural)]
pub struct SubmitEntryOk {
    /// The room's item total after the submission.
    pub total_items: i64,
    /// When the submission lands on a spawn slot, the one-based index of the
    /// AI entry the room should now inject.
    pub spawn_index: Option<i64>,
}

} // verus!
