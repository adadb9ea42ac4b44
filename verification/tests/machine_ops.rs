use soccer_game::end_game;
use soccer_game::score_goal;
use soccer_game::start_game;
use soccer_game::ErrorCode;
use soccer_game::Game;
use soccer_game::GameState;
use soccer_game::Team;

#[test]
fn default_record_is_not_started() {
    assert_eq!(GameState::default(), GameState::NotStarted);
    let t = Team::default();
    assert_eq!(t.name, "");
    assert_eq!(t.score, 0);
    let g = Game::default();
    assert_eq!(g.team_a.name, "");
    assert_eq!(g.team_b.name, "");
    assert_eq!((g.team_a.score, g.team_b.score), (0, 0));
    assert_eq!(g.state, GameState::NotStarted);
}

#[test]
fn start_game_sets_names_scores_and_state() {
    let mut g = Game::default();
    let ev = start_game(&mut g, "Lions".to_string(), "Tigers".to_string());
    assert_eq!(ev.team_a, "Lions");
    assert_eq!(ev.team_b, "Tigers");
    assert_eq!(g.team_a.name, "Lions");
    assert_eq!(g.team_b.name, "Tigers");
    assert_eq!((g.team_a.score, g.team_b.score), (0, 0));
    assert_eq!(g.state, GameState::InProgress);
}

#[test]
fn goal_before_start_is_rejected() {
    let mut g = Game::default();
    let r = score_goal(&mut g, "Lions".to_string());
    assert_eq!(r.unwrap_err(), ErrorCode::GameNotInProgress);
    assert_eq!(g.state, GameState::NotStarted);
}

#[test]
fn shared_name_always_attributes_to_team_a() {
    let mut g = Game::default();
    start_game(&mut g, "Same".to_string(), "Same".to_string());
    let ev = score_goal(&mut g, "Same".to_string()).unwrap();
    assert_eq!((ev.score_a, ev.score_b), (1, 0));
    assert_eq!((g.team_a.score, g.team_b.score), (1, 0));
}

#[test]
fn end_game_is_unconditional() {
    // Ending a match that never started succeeds and finishes it.
    let mut g = Game::default();
    let ev = end_game(&mut g);
    assert_eq!(g.state, GameState::Finished);
    assert_eq!((ev.score_a, ev.score_b), (0, 0));

    // Ending twice is a silent re-entry with the same snapshot.
    let mut g = Game::default();
    start_game(&mut g, "Lions".to_string(), "Tigers".to_string());
    score_goal(&mut g, "Tigers".to_string()).unwrap();
    let first = end_game(&mut g);
    let second = end_game(&mut g);
    assert_eq!(first.team_a, second.team_a);
    assert_eq!(first.team_b, second.team_b);
    assert_eq!((first.score_a, first.score_b), (second.score_a, second.score_b));
    assert_eq!(g.state, GameState::Finished);
}

#[test]
fn goal_event_snapshots_both_totals() {
    let mut g = Game::default();
    start_game(&mut g, "Lions".to_string(), "Tigers".to_string());
    score_goal(&mut g, "Lions".to_string()).unwrap();
    let ev = score_goal(&mut g, "Tigers".to_string()).unwrap();
    assert_eq!(ev.team, "Tigers");
    assert_eq!((ev.score_a, ev.score_b), (1, 1));
}
