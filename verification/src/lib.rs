//! A verified score-keeping match: a small deterministic state machine
//! that creates a two-team match record, records goals while play is in
//! progress, and closes the match, together with the in-memory record
//! store that holds one such record per instance identifier.
//!
//! Every command validates before it mutates: a rejected command leaves
//! the record exactly as it was, and the events returned by successful
//! commands agree with the record as persisted.

mod errors;
mod events;
mod game;
mod laws;
mod machine;
mod store;

pub use errors::ErrorCode;
pub use events::GameEndEvent;
pub use events::GameStartEvent;
pub use events::GoalScoredEvent;
pub use game::Game;
pub use game::GameModel;
pub use game::GameState;
pub use game::Team;
pub use game::TeamModel;
pub use laws::apply_goals;
pub use laws::attempt_goal;
pub use laws::attempt_goals;
pub use laws::goals_for_a;
pub use laws::goals_for_b;
pub use laws::goals_valid;
pub use laws::lemma_finished_is_terminal;
pub use laws::lemma_scores_count_goals;
pub use laws::lemma_scores_move_only_in_progress;
pub use laws::lemma_start_match_guarded;
pub use laws::lemma_state_never_regresses;
pub use laws::state_rank;
pub use machine::after_goal;
pub use machine::end_game;
pub use machine::ended;
pub use machine::goal_allowed;
pub use machine::goal_error;
pub use machine::score_goal;
pub use machine::start_game;
pub use machine::started;
pub use machine::MAX_SCORE;
pub use store::end_match;
pub use store::record_goal;
pub use store::start_match;
pub use store::start_match_allowed;
pub use store::store_updated;
pub use store::GameStore;
