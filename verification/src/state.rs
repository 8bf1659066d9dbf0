//! The application's screen states and the player-chosen options.

use vstd::prelude::*;

verus! {

/// Which screen the application is on. Gameplay logic runs only in `Game`;
/// a finished run transitions to `GameOver`.
#[derive(Clone, Copy, Debug, PartialEq, Eq, Hash, Structural)]
pub enum AppState {
    PreLoad,
    Loading,
    Menu,
    Options,
    LevelSelect,
    Game,
    GameOver,
    Pause,
}

/// How hard the race is. `Training` runs without a rival (and is used to
/// record paths); the others scale the light around the rival down as they
/// get harder.
#[derive(Clone, Copy, Debug, PartialEq, Eq, Structural)]
pub enum Difficulty {
    Training,
    Easy,
    Medium,
    Hard,
    Zatoichi,
}

/// The difficulty after one step through the cycle of choices.
pub open spec fn spec_next_difficulty(d: Difficulty) -> Difficulty {
    match d {
        Difficulty::Training => Difficulty::Easy,
        Difficulty::Easy => Difficulty::Medium,
        Difficulty::Medium => Difficulty::Hard,
        Difficulty::Hard => Difficulty::Zatoichi,
        Difficulty::Zatoichi => Difficulty::Training,
    }
}

impl Difficulty {
    /// Steps to the next difficulty, wrapping around the cycle of choices.
    pub fn next(self) -> (r: Difficulty)
        ensures
            r == spec_next_difficulty(self),
    {
        match self {
            Difficulty::Training => Difficulty::Easy,
            Difficulty::Easy => Difficulty::Medium,
            Difficulty::Medium => Difficulty::Hard,
            Difficulty::Hard => Difficulty::Zatoichi,
            Difficulty::Zatoichi => Difficulty::Training,
        }
    }

    /// The difficulty's name, for menu and leaderboard display.
    pub fn label(self) -> (r: String)
        ensures
            self is Training ==> r@ == "Training"@,
            self is Easy ==> r@ == "Easy"@,
            self is Medium ==> r@ == "Medium"@,
            self is Hard ==> r@ == "Hard"@,
            self is Zatoichi ==> r@ == "Zatoichi"@,
    {
        match self {
            Difficulty::Training => "Training".to_owned(),
            Difficulty::Easy => "Easy".to_owned(),
            Difficulty::Medium => "Medium".to_owned(),
            Difficulty::Hard => "Hard".to_owned(),
            Difficulty::Zatoichi => "Zatoichi".to_owned(),
        }
    }
}

impl Default for Difficulty {
    fn default() -> (r: Self)
        ensures
            r is Medium,
    {
        Difficulty::Medium
    }
}

/// The player's session settings.
#[derive(Clone, Debug)]
pub struct Options {
    pub name: String,
    pub difficulty: Difficulty,
    pub level: usize,
    pub music_volume: u32,
}

impl Options {
    pub fn set_difficulty(&mut self, difficulty: Difficulty)
        ensures
            final(self).difficulty == difficulty,
            final(self).name == old(self).name,
            final(self).level == old(self).level,
            final(self).music_volume == old(self).music_volume,
    {
        self.difficulty = difficulty;
    }

    pub fn set_level(&mut self, level: usize)
        ensures
            final(self).level == level,
            final(self).name == old(self).name,
            final(self).difficulty == old(self).difficulty,
            final(self).music_volume == old(self).music_volume,
    {
        self.level = level;
    }
}

impl Default for Options {
    fn default() -> (r: Self)
        ensures
            r.name@ == "Chaz"@,
            r.difficulty is Medium,
            r.level == 1,
            r.music_volume == 100,
    {
        Options {
            name: "Chaz".to_owned(),
            difficulty: Difficulty::Medium,
            level: 1,
            music_volume: 100,
        }
    }
}

/// Which leaderboard the leaderboard screen shows.
#[derive(Clone, Debug)]
pub struct LeaderBoardOptions {
    pub difficulty: Difficulty,
    pub level: usize,
}

impl Default for LeaderBoardOptions {
    fn default() -> (r: Self)
        ensures
            r.difficulty is Medium,
            r.level == 1,
    {
        LeaderBoardOptions { difficulty: Difficulty::Medium, level: 1 }
    }
}

} // verus!
