use soccer_game::end_match;
use soccer_game::record_goal;
use soccer_game::score_goal;
use soccer_game::start_game;
use soccer_game::start_match;
use soccer_game::ErrorCode;
use soccer_game::Game;
use soccer_game::GameStore;
use soccer_game::MAX_SCORE;

#[test]
fn create_of_an_existing_record_already_exists() {
    let mut store = GameStore::new();
    store.create(9).unwrap();
    assert_eq!(store.create(9).unwrap_err(), ErrorCode::AlreadyExists);
}

#[test]
fn start_of_an_existing_record_already_exists() {
    let mut store = GameStore::new();
    start_match(&mut store, 9, "Lions".to_string(), "Tigers".to_string()).unwrap();
    let r = start_match(&mut store, 9, "Lions".to_string(), "Tigers".to_string());
    assert_eq!(r.unwrap_err(), ErrorCode::AlreadyExists);
}

#[test]
fn missing_record_is_not_found() {
    let mut store = GameStore::new();
    assert_eq!(store.load(1).unwrap_err(), ErrorCode::NotFound);
    assert_eq!(record_goal(&mut store, 1, "Lions".to_string()).unwrap_err(), ErrorCode::NotFound);
    assert_eq!(end_match(&mut store, 1).unwrap_err(), ErrorCode::NotFound);
}

#[test]
fn distinct_instances_are_independent() {
    let mut store = GameStore::new();
    start_match(&mut store, 1, "Lions".to_string(), "Tigers".to_string()).unwrap();
    start_match(&mut store, 2, "Bears".to_string(), "Wolves".to_string()).unwrap();
    record_goal(&mut store, 1, "Lions".to_string()).unwrap();
    let g1 = store.load(1).unwrap();
    let g2 = store.load(2).unwrap();
    assert_eq!((g1.team_a.score, g1.team_b.score), (1, 0));
    assert_eq!((g2.team_a.score, g2.team_b.score), (0, 0));
    assert_eq!(g2.team_a.name, "Bears");
}

#[test]
fn unknown_team_is_invalid() {
    let mut store = GameStore::new();
    start_match(&mut store, 1, "Lions".to_string(), "Tigers".to_string()).unwrap();
    let r = record_goal(&mut store, 1, "Wolves".to_string());
    assert_eq!(r.unwrap_err(), ErrorCode::InvalidTeam);
}

#[test]
fn goal_past_the_bound_is_score_overflow() {
    let mut g = Game::default();
    start_game(&mut g, "Lions".to_string(), "Tigers".to_string());
    for _ in 0..MAX_SCORE {
        score_goal(&mut g, "Lions".to_string()).unwrap();
    }
    assert_eq!(g.team_a.score, MAX_SCORE);
    let r = score_goal(&mut g, "Lions".to_string());
    assert_eq!(r.unwrap_err(), ErrorCode::ScoreOverflow);
    assert_eq!(g.team_a.score, MAX_SCORE);
    assert_eq!(g.team_b.score, 0);
    // The other team can still score.
    let ev = score_goal(&mut g, "Tigers".to_string()).unwrap();
    assert_eq!((ev.score_a, ev.score_b), (MAX_SCORE, 1));
}
