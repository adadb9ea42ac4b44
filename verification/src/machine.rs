use vstd::prelude::*;

use crate::errors::ErrorCode;
use crate::events::GameEndEvent;
use crate::events::GameStartEvent;
use crate::events::GoalScoredEvent;
use crate::game::Game;
use crate::game::GameModel;
use crate::game::GameState;
use crate::game::Team;
use crate::game::TeamModel;

verus! {

/// The largest score a team can reach; a goal past this bound is
/// rejected with `ScoreOverflow` rather than wrapped.
pub const MAX_SCORE: u8 = 255;

/// The record right after a match starts: both teams at score zero,
/// play in progress.
pub open spec fn started(team_a: Seq<char>, team_b: Seq<char>) -> GameModel {
    GameModel {
        team_a: TeamModel { name: team_a, score: 0 },
        team_b: TeamModel { name: team_b, score: 0 },
        state: GameState::InProgress,
    }
}

/// A goal for `team` may be recorded: play is in progress, the name
/// matches a team -- team a is tried first, so a name both teams share
/// always attributes to team a -- and that team's score has room left.
pub open spec fn goal_allowed(g: GameModel, team: Seq<char>) -> bool {
    &&& g.state == GameState::InProgress
    &&& if team == g.team_a.name {
        g.team_a.score < MAX_SCORE
    } else {
        team == g.team_b.name && g.team_b.score < MAX_SCORE
    }
}

/// The error a rejected goal reports, checked in the order the command
/// validates: the state first, then the name, then the bound.
pub open spec fn goal_error(g: GameModel, team: Seq<char>) -> ErrorCode {
    if g.state != GameState::InProgress {
        ErrorCode::GameNotInProgress
    } else if team == g.team_a.name || team == g.team_b.name {
        ErrorCode::ScoreOverflow
    } else {
        ErrorCode::InvalidTeam
    }
}

/// The record after a goal for `team` (meaningful when `goal_allowed`
/// holds): the matching team's score grows by exactly one, team a
/// taking precedence when both names match; nothing else changes.
pub open spec fn after_goal(g: GameModel, team: Seq<char>) -> GameModel {
    if team == g.team_a.name {
        GameModel {
            team_a: TeamModel { name: g.team_a.name, score: g.team_a.score + 1 },
            team_b: g.team_b,
            state: g.state,
        }
    } else {
        GameModel {
            team_a: g.team_a,
            team_b: TeamModel { name: g.team_b.name, score: g.team_b.score + 1 },
            state: g.state,
        }
    }
}

/// The record after the match ends: only the state changes, to
/// `Finished`; names and scores are kept as a durable snapshot.
pub open spec fn ended(g: GameModel) -> GameModel {
    GameModel { team_a: g.team_a, team_b: g.team_b, state: GameState::Finished }
}

/// Initializes the record with the two supplied names, both scores at
/// zero, and moves play to `InProgress`. The caller guards creation
/// (`GameStore::create` refuses an instance that already exists), so
/// the transition itself is unconditional, and the returned event
/// carries the names the record now holds.
pub fn start_game(game: &mut Game, team_a: String, team_b: String) -> (ev: GameStartEvent)
    ensures
        final(game)@ == started(team_a@, team_b@),
        ev.team_a@ == team_a@,
        ev.team_b@ == team_b@,
{
    game.team_a = Team { name: team_a, score: 0 };
    game.team_b = Team { name: team_b, score: 0 };
    game.state = GameState::InProgress;
    GameStartEvent { team_a: game.team_a.name.clone(), team_b: game.team_b.name.clone() }
}

/// Records one goal for `team`. Exactly when `goal_allowed` holds the
/// matching score grows by one and the event reports both totals as the
/// record now holds them; otherwise the record is returned bit for bit
/// unchanged with the error `goal_error` names.
pub fn score_goal(game: &mut Game, team: String) -> (r: Result<GoalScoredEvent, ErrorCode>)
    ensures
        match r {
            Ok(ev) => {
                &&& goal_allowed(old(game)@, team@)
                &&& final(game)@ == after_goal(old(game)@, team@)
                &&& ev.team@ == team@
                &&& ev.score_a as int == final(game)@.team_a.score
                &&& ev.score_b as int == final(game)@.team_b.score
            },
            Err(e) => {
                &&& !goal_allowed(old(game)@, team@)
                &&& e == goal_error(old(game)@, team@)
                &&& *final(game) == *old(game)
            },
        },
{
    if game.state != GameState::InProgress {
        return Err(ErrorCode::GameNotInProgress);
    }
    if game.team_a.name == team {
        if game.team_a.score == MAX_SCORE {
            return Err(ErrorCode::ScoreOverflow);
        }
        game.team_a.score = game.team_a.score + 1;
        Ok(GoalScoredEvent { team, score_a: game.team_a.score, score_b: game.team_b.score })
    } else if game.team_b.name == team {
        if game.team_b.score == MAX_SCORE {
            return Err(ErrorCode::ScoreOverflow);
        }
        game.team_b.score = game.team_b.score + 1;
        Ok(GoalScoredEvent { team, score_a: game.team_a.score, score_b: game.team_b.score })
    } else {
        Err(ErrorCode::InvalidTeam)
    }
}

/// Ends the match unconditionally: whatever the current state, the
/// record moves to `Finished` with names and scores untouched, and the
/// event snapshots the final standing. Ending an unstarted or already
/// finished match succeeds silently.
pub fn end_game(game: &mut Game) -> (ev: GameEndEvent)
    ensures
        final(game)@ == ended(old(game)@),
        ev.team_a@ == old(game)@.team_a.name,
        ev.score_a as int == old(game)@.team_a.score,
        ev.team_b@ == old(game)@.team_b.name,
        ev.score_b as int == old(game)@.team_b.score,
{
    game.state = GameState::Finished;
    GameEndEvent {
        team_a: game.team_a.name.clone(),
        score_a: game.team_a.score,
        team_b: game.team_b.name.clone(),
        score_b: game.team_b.score,
    }
}

} // verus!
