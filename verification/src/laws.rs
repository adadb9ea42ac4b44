use vstd::prelude::*;

use crate::errors::ErrorCode;
use crate::game::Game;
use crate::game::GameModel;
use crate::game::GameState;
use crate::machine::after_goal;
use crate::machine::ended;
use crate::machine::goal_allowed;
use crate::machine::goal_error;
use crate::machine::started;
use crate::store::start_match_allowed;
use crate::store::store_updated;

verus! {

/// Every goal in `goals`, taken in order, is allowed at the record it
/// meets: play is in progress, the name matches, the score has room.
pub open spec fn goals_valid(g: GameModel, goals: Seq<Seq<char>>) -> bool
    decreases goals.len(),
{
    goals.len() == 0 || (goal_allowed(g, goals[0]) && goals_valid(
        after_goal(g, goals[0]),
        goals.subrange(1, goals.len() as int),
    ))
}

/// The record after the goals in `goals` are recorded in order, each
/// one applied with `after_goal`.
pub open spec fn apply_goals(g: GameModel, goals: Seq<Seq<char>>) -> GameModel
    decreases goals.len(),
{
    if goals.len() == 0 {
        g
    } else {
        apply_goals(after_goal(g, goals[0]), goals.subrange(1, goals.len() as int))
    }
}

/// One attempted goal: the record after `after_goal` when the goal is
/// allowed, and the record untouched when it is rejected.
pub open spec fn attempt_goal(g: GameModel, team: Seq<char>) -> GameModel {
    if goal_allowed(g, team) {
        after_goal(g, team)
    } else {
        g
    }
}

/// The record after the goals in `goals` are attempted in order,
/// rejected ones leaving it untouched.
pub open spec fn attempt_goals(g: GameModel, goals: Seq<Seq<char>>) -> GameModel
    decreases goals.len(),
{
    if goals.len() == 0 {
        g
    } else {
        attempt_goals(attempt_goal(g, goals[0]), goals.subrange(1, goals.len() as int))
    }
}

/// How many of the goals in `goals` are attributed to team a: those
/// naming `a_name`, which is always tried first.
pub open spec fn goals_for_a(goals: Seq<Seq<char>>, a_name: Seq<char>) -> int
    decreases goals.len(),
{
    if goals.len() == 0 {
        0
    } else {
        (if goals[0] == a_name {
            1int
        } else {
            0int
        }) + goals_for_a(goals.subrange(1, goals.len() as int), a_name)
    }
}

/// How many of the goals in `goals` are attributed to team b: those
/// naming `b_name` without naming `a_name` (a shared name always
/// attributes to team a).
pub open spec fn goals_for_b(goals: Seq<Seq<char>>, a_name: Seq<char>, b_name: Seq<char>) -> int
    decreases goals.len(),
{
    if goals.len() == 0 {
        0
    } else {
        (if goals[0] != a_name && goals[0] == b_name {
            1int
        } else {
            0int
        }) + goals_for_b(goals.subrange(1, goals.len() as int), a_name, b_name)
    }
}

/// Where a state stands in the forward order of the lifecycle
/// `NotStarted -> InProgress -> Finished`.
pub open spec fn state_rank(s: GameState) -> int {
    match s {
        GameState::NotStarted => 0,
        GameState::InProgress => 1,
        GameState::Finished => 2,
    }
}

/// The lifecycle only advances: a start moves the default record
/// forward, a goal (attempted or recorded) keeps the state, and an end
/// moves to the last state; no transition regresses.
pub proof fn lemma_state_never_regresses(g: GameModel, team: Seq<char>, a: Seq<char>, b: Seq<char>)
    ensures
        state_rank(started(a, b).state) >= state_rank(GameModel::init().state),
        state_rank(attempt_goal(g, team).state) == state_rank(g.state),
        state_rank(ended(g).state) >= state_rank(g.state),
{
}

/// Scores are mutated only while play is in progress: an attempted goal
/// outside `InProgress` changes nothing at all, and ending the match
/// keeps both teams exactly as they stand.
pub proof fn lemma_scores_move_only_in_progress(g: GameModel, team: Seq<char>)
    ensures
        g.state != GameState::InProgress ==> attempt_goal(g, team) == g,
        ended(g).team_a == g.team_a,
        ended(g).team_b == g.team_b,
{
}

/// Once some start has created the record for `id` -- whatever model it
/// left there -- a later start of the same instance is not allowed, and
/// by `start_match`'s contract it then returns `AlreadyExists` and
/// leaves the store, the first match's state included, unchanged.
pub proof fn lemma_start_match_guarded(
    pre: Map<u64, Game>,
    post: Map<u64, Game>,
    id: u64,
    g: GameModel,
)
    requires
        store_updated(pre, post, id, g),
    ensures
        !start_match_allowed(post, id),
{
}

/// Score monotonicity: over any sequence of valid goals recorded while
/// play is in progress, each team's score grows by exactly the count of
/// goals attributed to that team's name, and the names and the state
/// never change.
pub proof fn lemma_scores_count_goals(g: GameModel, goals: Seq<Seq<char>>)
    requires
        goals_valid(g, goals),
    ensures
        apply_goals(g, goals).team_a.name == g.team_a.name,
        apply_goals(g, goals).team_b.name == g.team_b.name,
        apply_goals(g, goals).state == g.state,
        apply_goals(g, goals).team_a.score == g.team_a.score + goals_for_a(goals, g.team_a.name),
        apply_goals(g, goals).team_b.score == g.team_b.score + goals_for_b(
            goals,
            g.team_a.name,
            g.team_b.name,
        ),
    decreases goals.len(),
{
    if goals.len() > 0 {
        let g1 = after_goal(g, goals[0]);
        lemma_scores_count_goals(g1, goals.subrange(1, goals.len() as int));
    }
}

/// Terminal immutability: once the record is `Finished`, every goal is
/// rejected with `GameNotInProgress`, and no sequence of attempted
/// goals changes the record again.
pub proof fn lemma_finished_is_terminal(g: GameModel, goals: Seq<Seq<char>>)
    requires
        g.state == GameState::Finished,
    ensures
        forall|team: Seq<char>| !goal_allowed(g, team),
        forall|team: Seq<char>| goal_error(g, team) == ErrorCode::GameNotInProgress,
        attempt_goals(g, goals) == g,
    decreases goals.len(),
{
    if goals.len() > 0 {
        lemma_finished_is_terminal(g, goals.subrange(1, goals.len() as int));
    }
}

} // verus!
