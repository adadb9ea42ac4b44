use vstd::prelude::*;

verus! {

/// Notification returned by a successful `start_game`: the two team
/// names the match was created with.
#[derive(Debug)]
pub struct GameStartEvent {
    pub team_a: String,
    pub team_b: String,
}

/// Notification returned by a successful `score_goal`: the scoring
/// team's name and both post-increment totals.
#[derive(Debug)]
pub struct GoalScoredEvent {
    pub team: String,
    pub score_a: u8,
    pub score_b: u8,
}

/// Notification returned by `end_game`: a full snapshot of the final
/// names and scores.
#[derive(Debug)]
pub struct GameEndEvent {
    pub team_a: String,
    pub score_a: u8,
    pub team_b: String,
    pub score_b: u8,
}

} // verus!
