use vstd::prelude::*;

verus! {

/// The lifecycle of a match record. The state only ever advances
/// `NotStarted -> InProgress -> Finished`; no command moves it back.
#[derive(Clone, Copy, Debug, PartialEq, Eq, Structural)]
pub enum GameState {
    NotStarted,
    InProgress,
    Finished,
}

impl Default for GameState {
    /// A freshly allocated record has not started yet.
    fn default() -> (s: GameState)
        ensures
            s == GameState::NotStarted,
    {
        GameState::NotStarted
    }
}

/// A named score counter nested inside a match record.
#[derive(Debug)]
pub struct Team {
    pub name: String,
    pub score: u8,
}

/// Mathematical abstraction of a `Team`: the name as a character
/// sequence and the score as an unbounded integer.
pub ghost struct TeamModel {
    pub name: Seq<char>,
    pub score: int,
}

impl View for Team {
    type V = TeamModel;

    open spec fn view(&self) -> TeamModel {
        TeamModel { name: self.name@, score: self.score as int }
    }
}

impl Clone for Team {
    fn clone(&self) -> (r: Team)
        ensures
            r == *self,
    {
        Team { name: self.name.clone(), score: self.score }
    }
}

impl Default for Team {
    /// A team of the default record: empty name, score zero.
    fn default() -> (t: Team)
        ensures
            t@ == (TeamModel { name: Seq::<char>::empty(), score: 0 }),
    {
        Team { name: String::new(), score: 0 }
    }
}

/// The single record representing one two-team scoring contest.
#[derive(Debug)]
pub struct Game {
    pub team_a: Team,
    pub team_b: Team,
    pub state: GameState,
}

/// Mathematical abstraction of a `Game`.
pub ghost struct GameModel {
    pub team_a: TeamModel,
    pub team_b: TeamModel,
    pub state: GameState,
}

impl GameModel {
    /// The default form of a record, before any command has run.
    pub open spec fn init() -> GameModel {
        GameModel {
            team_a: TeamModel { name: Seq::<char>::empty(), score: 0 },
            team_b: TeamModel { name: Seq::<char>::empty(), score: 0 },
            state: GameState::NotStarted,
        }
    }
}

impl View for Game {
    type V = GameModel;

    open spec fn view(&self) -> GameModel {
        GameModel { team_a: self.team_a@, team_b: self.team_b@, state: self.state }
    }
}

impl Clone for Game {
    fn clone(&self) -> (r: Game)
        ensures
            r == *self,
    {
        Game { team_a: self.team_a.clone(), team_b: self.team_b.clone(), state: self.state }
    }
}

impl Default for Game {
    /// A record in its default form: unnamed teams at zero, not started.
    fn default() -> (g: Game)
        ensures
            g@ == GameModel::init(),
    {
        Game { team_a: Team::default(), team_b: Team::default(), state: GameState::default() }
    }
}

} // verus!
