//! Gameplay-simulation core of a top-down survival game: the parts and
//! crafting economy, the hostile-agent population controller, the player's
//! activity and stamina state machine, weapon targeting and the timed hazard
//! devices.
//!
//! Positions are integer world units and durations are milliseconds; the
//! engine-binding layer converts to and from its own representations.
use vstd::prelude::*;
use crate::timer::{Timer, tick_view, fresh_view};

pub mod airdrops;
pub mod crafting;
pub mod geometry;
pub mod player;
pub mod text_log;
pub mod timer;
pub mod traps;
pub mod weapon;
pub mod zombies;

verus! {

/// The score for each agent killed.
pub const KILL_SCORE: u64 = 100;

/// The score for each survival period.
pub const SURVIVAL_SCORE: u64 = 50;

/// The length of a survival period.
pub const SURVIVAL_PERIOD_MS: u64 = 2500;

/// The player's score.
#[derive(Clone, Copy, Debug, PartialEq, Eq, Structural)]
pub struct Score(pub u64);

impl Score {
    /// `v` limited to the range of `u64`.
    pub open spec fn saturated(v: int) -> u64 {
        if v > u64::MAX {
            u64::MAX
        } else {
            v as u64
        }
    }

    /// Adds `points`, stopping at the largest score.
    pub fn add(&mut self, points: u64)
        ensures
            final(self).0 == Score::saturated(old(self).0 + points),
    {
        self.0 = if self.0 > u64::MAX - points {
            u64::MAX
        } else {
            self.0 + points
        };
    }

    /// Rewards `kills` agents killed.
    pub fn add_kills(&mut self, kills: u64)
        ensures
            final(self).0 == Score::saturated(old(self).0 + KILL_SCORE * kills),
    {
        let points = if kills > u64::MAX / KILL_SCORE {
            u64::MAX
        } else {
            KILL_SCORE * kills
        };
        self.add(points);
    }
}

/// The timer of the survival reward.
pub struct ScoreTimer(pub Timer);

impl ScoreTimer {
    /// A repeating timer of one survival period.
    pub fn new() -> (r: ScoreTimer)
        ensures
            r.0@ == fresh_view(SURVIVAL_PERIOD_MS as nat, true),
    {
        ScoreTimer(Timer::new(SURVIVAL_PERIOD_MS, true))
    }

    /// Advances the timer by `delta_ms`, rewarding survival when a period ends.
    pub fn tick(&mut self, delta_ms: u64, score: &mut Score)
        ensures
            final(self).0@ == tick_view(old(self).0@, delta_ms as nat),
            final(score).0 == if final(self).0@.just_finished {
                Score::saturated(old(score).0 + SURVIVAL_SCORE)
            } else {
                old(score).0
            },
    {
        self.0.tick(delta_ms);
        if self.0.just_finished() {
            score.add(SURVIVAL_SCORE);
        }
    }
}

/// Clears the score and starts the survival timer over, for a new round.
pub fn reset_score(score: &mut Score, timer: &mut ScoreTimer)
    ensures
        final(score).0 == 0,
        final(timer).0@ == fresh_view(old(timer).0@.duration, old(timer).0@.repeating),
{
    score.0 = 0;
    timer.0.reset();
}

/// The item-bar slot selected for placing, if any.
#[derive(Clone, Copy, Debug, PartialEq, Eq, Structural)]
pub struct SelectedItemSlot(pub Option<u16>);

impl SelectedItemSlot {
    /// Selects the first slot whose key was pressed, if any; `pressed` holds
    /// one flag per slot key.
    pub fn select(&mut self, pressed: &Vec<bool>)
        requires
            pressed@.len() <= u16::MAX,
        ensures
            (exists|k: int| 0 <= k < pressed@.len() && pressed@[k]) ==> {
                let s = final(self).0;
                &&& s is Some
                &&& pressed@[s->0 as int]
                &&& forall|k: int| 0 <= k < s->0 ==> !pressed@[k]
            },
            (forall|k: int| 0 <= k < pressed@.len() ==> !pressed@[k]) ==> *final(self) == *old(self),
    {
        let mut i: usize = 0;
        while i < pressed.len()
            invariant
                i <= pressed@.len() <= u16::MAX,
                forall|k: int| 0 <= k < i ==> !pressed@[k],
                *self == *old(self),
            decreases pressed@.len() - i,
        {
            if pressed[i] {
                self.0 = Some(i as u16);
                return;
            }
            i = i + 1;
        }
    }
}

/// When the current round started, in milliseconds of the host's clock.
#[derive(Clone, Copy, Debug, PartialEq, Eq, Structural)]
pub struct RoundStart(pub u64);

impl RoundStart {
    /// The time since the round started, or zero for a time before it.
    pub fn elapsed_ms(&self, now_ms: u64) -> (r: u64)
        ensures
            r == if now_ms >= self.0 {
                now_ms - self.0
            } else {
                0
            },
    {
        if now_ms >= self.0 {
            now_ms - self.0
        } else {
            0
        }
    }
}

/// The phase of the game.
#[derive(Clone, Copy, Debug, PartialEq, Eq, Structural, Hash)]
pub enum GameState {
    Loading,
    Playing,
    Sheltered,
    GameOver,
}

/// The state that the shelter keys lead to: the toggle key enters the
/// shelter from play and leaves it; the cancel key leaves it.
pub open spec fn shelter_transition(s: GameState, toggle: bool, cancel: bool) -> Option<GameState> {
    if toggle && s == GameState::Playing {
        Some(GameState::Sheltered)
    } else if (toggle || cancel) && s == GameState::Sheltered {
        Some(GameState::Playing)
    } else {
        None
    }
}

impl GameState {
    /// The state that the shelter keys lead to, if they change it.
    pub fn after_shelter_keys(&self, toggle: bool, cancel: bool) -> (r: Option<GameState>)
        ensures
            r == shelter_transition(*self, toggle, cancel),
    {
        if toggle && *self == GameState::Playing {
            Some(GameState::Sheltered)
        } else if (toggle || cancel) && *self == GameState::Sheltered {
            Some(GameState::Playing)
        } else {
            None
        }
    }
}

} // verus!
