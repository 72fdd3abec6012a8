//! Payloads of the socket events exchanged with clients.
//!
//! The engine's own events (`GameEvent`) carry plain identifiers; the
//! gateway turns them into these wire payloads.

use vstd::prelude::*;

verus! {

/// An AI entry appeared.
#[derive(Clone, Copy, Debug, PartialEq, Eq, Structural)]
pub struct AiSpawnedData {
    pub ai_count: i32,
}

/// The online count changed.
#[derive(Clone, Copy, Debug, PartialEq, Eq, Structural)]
pub struct OnlineCountData {
    pub count: i32,
}

/// The game ended.
#[derive(Debug)]
pub struct GameOverData {
    pub reason: String,
    pub final_ai_count: i32,
    pub animation: String,
}

/// A client casts a vote.
#[derive(Debug)]
pub struct VoteCastInput {
    pub fish_id: String,
    pub voter_id: String,
}

/// A client retracts a vote.
#[derive(Debug)]
pub struct VoteRetractInput {
    pub fish_id: String,
    pub voter_id: String,
}

/// A client asks to chase; the ability is disabled and always rejected.
#[derive(Debug)]
pub struct VoteChaseInput {
    pub fish_id: String,
    pub voter_id: String,
}

/// An entry's tally changed.
#[derive(Debug)]
pub struct VoteUpdateOutput {
    pub fish_id: String,
    pub count: i32,
    pub voters: Vec<String>,
}

/// Somebody voted against the addressee's entry.
#[derive(Debug)]
pub struct VoteReceivedOutput {
    pub fish_id: String,
    pub voter_id: String,
}

/// An entry was eliminated, with who eliminated whom.
#[derive(Debug)]
pub struct FishEliminateOutput {
    pub fish_id: String,
    pub fish_name: String,
    pub is_ai: bool,
    pub fish_owner_id: String,
    pub killer_names: Vec<String>,
}

/// The game was won.
#[derive(Debug)]
pub struct GameVictoryOutput {
    pub mvp_id: String,
    pub mvp_name: String,
    pub ai_remaining: i32,
    pub human_remaining: i32,
}

/// The game was lost.
#[derive(Clone, Copy, Debug, PartialEq, Eq, Structural)]
pub struct GameDefeatOutput {
    pub ai_remaining: i32,
    pub human_remaining: i32,
}

/// The room a connection joined, kept with the connection.
#[derive(Debug)]
pub struct RoomSession {
    pub room_code: String,
}

/// A rejected socket handshake.
#[derive(Debug)]
pub struct WsAuthError(pub String);

impl WsAuthError {
    /// The reason the handshake was rejected.
    pub fn message(&self) -> (r: &String)
        ensures
            r == self.0,
    {
        &self.0
    }
}

} // verus!
