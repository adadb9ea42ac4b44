use vstd::prelude::*;

use crate::errors::ErrorCode;
use crate::events::GameEndEvent;
use crate::events::GameStartEvent;
use crate::events::GoalScoredEvent;
use crate::game::Game;
use crate::game::GameModel;
use crate::machine::after_goal;
use crate::machine::end_game;
use crate::machine::ended;
use crate::machine::goal_allowed;
use crate::machine::goal_error;
use crate::machine::score_goal;
use crate::machine::start_game;
use crate::machine::started;
use vstd::hash_map::HashMapWithView;

verus! {

broadcast use vstd::std_specs::hash::group_hash_axioms;

/// The match record store: a pure key-value accessor holding at most
/// one `Game` per instance identifier, with no validation logic of its
/// own. Its view is the map from identifier to stored record.
pub struct GameStore {
    records: HashMapWithView<u64, Game>,
}

impl View for GameStore {
    type V = Map<u64, Game>;

    closed spec fn view(&self) -> Map<u64, Game> {
        self.records@
    }
}

impl GameStore {
    /// An empty store: no record exists for any identifier.
    pub fn new() -> (s: GameStore)
        ensures
            s@ == Map::<u64, Game>::empty(),
    {
        GameStore { records: HashMapWithView::new() }
    }

    /// Allocates the record for `id` in its default (`NotStarted`)
    /// form and returns a copy for initialization by the caller; fails
    /// with `AlreadyExists`, touching nothing, if a record for `id` is
    /// already present.
    pub fn create(&mut self, id: u64) -> (r: Result<Game, ErrorCode>)
        ensures
            match r {
                Ok(g) => {
                    &&& !old(self)@.contains_key(id)
                    &&& g@ == GameModel::init()
                    &&& final(self)@ == old(self)@.insert(id, g)
                },
                Err(e) => {
                    &&& old(self)@.contains_key(id)
                    &&& e == ErrorCode::AlreadyExists
                    &&& *final(self) == *old(self)
                },
            },
    {
        if self.records.contains_key(&id) {
            return Err(ErrorCode::AlreadyExists);
        }
        let g = Game::default();
        let copy = g.clone();
        self.records.insert(id, g);
        Ok(copy)
    }

    /// Returns a copy of the record stored under `id`; fails with
    /// `NotFound` if none exists.
    pub fn load(&self, id: u64) -> (r: Result<Game, ErrorCode>)
        ensures
            match r {
                Ok(g) => self@.contains_key(id) && g == self@[id],
                Err(e) => !self@.contains_key(id) && e == ErrorCode::NotFound,
            },
    {
        match self.records.get(&id) {
            Some(g) => Ok(g.clone()),
            None => Err(ErrorCode::NotFound),
        }
    }

    /// Persists `game` under `id`, overwriting any prior value. The
    /// in-memory medium is always available, so this cannot fail.
    pub fn save(&mut self, id: u64, game: Game)
        ensures
            final(self)@ == old(self)@.insert(id, game),
    {
        self.records.insert(id, game);
    }
}

/// A match may be started for `id`: no record exists for it yet.
pub open spec fn start_match_allowed(s: Map<u64, Game>, id: u64) -> bool {
    !s.contains_key(id)
}

/// The store changed only at `id`, whose record now abstracts to `g`:
/// the domain gained `id`, and every other record is untouched.
pub open spec fn store_updated(pre: Map<u64, Game>, post: Map<u64, Game>, id: u64, g: GameModel) -> bool {
    &&& post.dom() == pre.dom().insert(id)
    &&& forall|k: u64| k != id && pre.contains_key(k) ==> post[k] == pre[k]
    &&& post.contains_key(id)
    &&& post[id]@ == g
}

/// The start command: creates the record for `id`, initializes it with
/// the two names via `start_game`, and persists it, all in one step.
/// Succeeds exactly when no record for `id` existed; a second start of
/// the same instance reports `AlreadyExists` and changes nothing.
pub fn start_match(store: &mut GameStore, id: u64, team_a: String, team_b: String) -> (r: Result<
    GameStartEvent,
    ErrorCode,
>)
    ensures
        match r {
            Ok(ev) => {
                &&& start_match_allowed(old(store)@, id)
                &&& store_updated(old(store)@, final(store)@, id, started(team_a@, team_b@))
                &&& ev.team_a@ == team_a@
                &&& ev.team_b@ == team_b@
            },
            Err(e) => {
                &&& !start_match_allowed(old(store)@, id)
                &&& e == ErrorCode::AlreadyExists
                &&& *final(store) == *old(store)
            },
        },
{
    let mut game = match store.create(id) {
        Ok(g) => g,
        Err(e) => {
            return Err(e);
        },
    };
    let ev = start_game(&mut game, team_a, team_b);
    store.save(id, game);
    proof {
        assert(store@.dom() =~= old(store)@.dom().insert(id));
    }
    Ok(ev)
}

/// The goal command: reloads the record for `id`, applies `score_goal`,
/// and persists the result. Succeeds exactly when the record exists and
/// `goal_allowed` holds of it; any failure leaves the store bit for bit
/// unchanged, reporting `NotFound` for a missing record and otherwise
/// the error `goal_error` names. On success the event totals equal the
/// scores of the record as persisted.
pub fn record_goal(store: &mut GameStore, id: u64, team: String) -> (r: Result<
    GoalScoredEvent,
    ErrorCode,
>)
    ensures
        match r {
            Ok(ev) => {
                &&& old(store)@.contains_key(id)
                &&& goal_allowed(old(store)@[id]@, team@)
                &&& store_updated(
                    old(store)@,
                    final(store)@,
                    id,
                    after_goal(old(store)@[id]@, team@),
                )
                &&& ev.team@ == team@
                &&& ev.score_a as int == final(store)@[id]@.team_a.score
                &&& ev.score_b as int == final(store)@[id]@.team_b.score
            },
            Err(e) => {
                &&& *final(store) == *old(store)
                &&& if !old(store)@.contains_key(id) {
                    e == ErrorCode::NotFound
                } else {
                    &&& !goal_allowed(old(store)@[id]@, team@)
                    &&& e == goal_error(old(store)@[id]@, team@)
                }
            },
        },
{
    let mut game = match store.load(id) {
        Ok(g) => g,
        Err(e) => {
            return Err(e);
        },
    };
    let ev = match score_goal(&mut game, team) {
        Ok(ev) => ev,
        Err(e) => {
            return Err(e);
        },
    };
    store.save(id, game);
    proof {
        assert(store@.dom() =~= old(store)@.dom().insert(id));
    }
    Ok(ev)
}

/// The end command: reloads the record for `id`, moves it to `Finished`
/// via `end_game`, and persists it. Succeeds exactly when the record
/// exists -- ending an unstarted or already finished match is allowed
/// -- and the event snapshots the final names and scores as persisted.
pub fn end_match(store: &mut GameStore, id: u64) -> (r: Result<GameEndEvent, ErrorCode>)
    ensures
        match r {
            Ok(ev) => {
                &&& old(store)@.contains_key(id)
                &&& store_updated(old(store)@, final(store)@, id, ended(old(store)@[id]@))
                &&& ev.team_a@ == old(store)@[id]@.team_a.name
                &&& ev.score_a as int == old(store)@[id]@.team_a.score
                &&& ev.team_b@ == old(store)@[id]@.team_b.name
                &&& ev.score_b as int == old(store)@[id]@.team_b.score
            },
            Err(e) => {
                &&& !old(store)@.contains_key(id)
                &&& e == ErrorCode::NotFound
                &&& *final(store) == *old(store)
            },
        },
{
    let mut game = match store.load(id) {
        Ok(g) => g,
        Err(e) => {
            return Err(e);
        },
    };
    let ev = end_game(&mut game);
    store.save(id, game);
    proof {
        assert(store@.dom() =~= old(store)@.dom().insert(id));
    }
    Ok(ev)
}

} // verus!
