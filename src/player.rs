//! The player's activity and stamina state machine, and the breathing cue
//! that follows stamina.
use vstd::prelude::*;

verus! {

/// Full stamina; stamina is counted in millionths.
pub const STAMINA_SCALE: u32 = 1_000_000;

/// Stamina lost per millisecond of running (0.15 per second).
pub const STAMINA_DRAIN_PER_MS: u32 = 150;

/// Stamina regained per millisecond of not running (0.3 per second).
pub const STAMINA_RECOVERY_PER_MS: u32 = 300;

/// Running takes stamina above this (0.01).
pub const RUN_THRESHOLD: u32 = 10_000;

/// What the player is doing.
#[derive(Clone, Copy, Debug, PartialEq, Eq, Structural, Hash)]
pub enum PlayerActivity {
    Standing,
    Walking,
    Running,
}

/// The activity that follows `a`, given whether the player means to move,
/// whether run was pressed or released this tick, and whether stamina allows
/// running.
pub open spec fn next_activity(
    a: PlayerActivity,
    moving: bool,
    run_pressed: bool,
    run_released: bool,
    can_run: bool,
) -> PlayerActivity {
    if !moving {
        PlayerActivity::Standing
    } else {
        match a {
            PlayerActivity::Standing => PlayerActivity::Walking,
            PlayerActivity::Walking => if run_pressed && can_run {
                PlayerActivity::Running
            } else {
                PlayerActivity::Walking
            },
            PlayerActivity::Running => if run_released || !can_run {
                PlayerActivity::Walking
            } else {
                PlayerActivity::Running
            },
        }
    }
}

/// The movement speed of an activity, in world units per second.
pub open spec fn speed_of(a: PlayerActivity) -> nat {
    match a {
        PlayerActivity::Standing => 0,
        PlayerActivity::Walking => 70,
        PlayerActivity::Running => 165,
    }
}

impl Default for PlayerActivity {
    /// Standing.
    fn default() -> (r: PlayerActivity)
        ensures
            r == PlayerActivity::Standing,
    {
        PlayerActivity::Standing
    }
}

impl PlayerActivity {
    /// The movement speed, in world units per second.
    pub fn movement_speed(&self) -> (r: u32)
        ensures
            r == speed_of(*self),
    {
        match self {
            PlayerActivity::Standing => 0,
            PlayerActivity::Walking => 70,
            PlayerActivity::Running => 165,
        }
    }

    /// Moves to the activity that the input and stamina call for.
    pub fn update(&mut self, moving: bool, run_pressed: bool, run_released: bool, stamina: &PlayerStamina)
        ensures
            *final(self) == next_activity(*old(self), moving, run_pressed, run_released, stamina@ > RUN_THRESHOLD),
    {
        let can_run = stamina.can_run();
        *self = if !moving {
            PlayerActivity::Standing
        } else {
            match *self {
                PlayerActivity::Standing => PlayerActivity::Walking,
                PlayerActivity::Walking => if run_pressed && can_run {
                    PlayerActivity::Running
                } else {
                    PlayerActivity::Walking
                },
                PlayerActivity::Running => if run_released || !can_run {
                    PlayerActivity::Walking
                } else {
                    PlayerActivity::Running
                },
            }
        };
    }
}

/// Stamina after `delta` milliseconds of activity `a`, starting from `level`:
/// it drains while running and recovers otherwise, limited to the range from
/// zero to full.
pub open spec fn stamina_after(level: nat, a: PlayerActivity, delta: nat) -> nat {
    if a == PlayerActivity::Running {
        if level >= STAMINA_DRAIN_PER_MS * delta {
            (level - STAMINA_DRAIN_PER_MS * delta) as nat
        } else {
            0
        }
    } else if level + STAMINA_RECOVERY_PER_MS * delta <= STAMINA_SCALE {
        (level + STAMINA_RECOVERY_PER_MS * delta) as nat
    } else {
        STAMINA_SCALE as nat
    }
}

/// Stamina after a sequence of ticks, each an activity and a duration.
pub open spec fn stamina_over(level: nat, ticks: Seq<(PlayerActivity, nat)>) -> nat
    decreases ticks.len(),
{
    if ticks.len() == 0 {
        level
    } else {
        let last = ticks.last();
        stamina_after(stamina_over(level, ticks.drop_last()), last.0, last.1)
    }
}

/// The player's stamina, in millionths: never below zero nor above full.
#[derive(Clone, Copy, Debug)]
pub struct PlayerStamina {
    level: u32,
}

impl View for PlayerStamina {
    type V = nat;

    closed spec fn view(&self) -> nat {
        self.level as nat
    }
}

impl Default for PlayerStamina {
    /// Full stamina.
    fn default() -> (r: PlayerStamina)
        ensures
            r@ == STAMINA_SCALE,
    {
        PlayerStamina { level: STAMINA_SCALE }
    }
}

impl PlayerStamina {
    #[verifier::type_invariant]
    spec fn inv(self) -> bool {
        self.level <= STAMINA_SCALE
    }

    /// The stamina, in millionths.
    pub fn level(&self) -> (r: u32)
        ensures
            r == self@,
            r <= STAMINA_SCALE,
    {
        proof {
            use_type_invariant(self);
        }
        self.level
    }

    /// Drains or recovers stamina over `delta_ms` of `activity`.
    pub fn tick(&mut self, activity: &PlayerActivity, delta_ms: u64)
        ensures
            final(self)@ == stamina_after(old(self)@, *activity, delta_ms as nat),
            final(self)@ <= STAMINA_SCALE,
    {
        proof {
            use_type_invariant(&*self);
        }
        let d: u64 = if delta_ms > STAMINA_SCALE as u64 {
            STAMINA_SCALE as u64
        } else {
            delta_ms
        };
        let level = self.level as u64;
        assert(STAMINA_DRAIN_PER_MS * d <= 150_000_000 && STAMINA_RECOVERY_PER_MS * d <= 300_000_000)
            by (nonlinear_arith)
            requires
                d <= 1_000_000,
        ;
        assert(d < delta_ms ==> STAMINA_DRAIN_PER_MS * delta_ms >= 150_000_000
            && STAMINA_RECOVERY_PER_MS * delta_ms >= 300_000_000) by (nonlinear_arith)
            requires
                d < delta_ms ==> d == 1_000_000,
        ;
        let next: u64 = match activity {
            PlayerActivity::Running => {
                let loss = STAMINA_DRAIN_PER_MS as u64 * d;
                if level >= loss {
                    level - loss
                } else {
                    0
                }
            },
            _ => {
                let gain = STAMINA_RECOVERY_PER_MS as u64 * d;
                if level + gain <= STAMINA_SCALE as u64 {
                    level + gain
                } else {
                    STAMINA_SCALE as u64
                }
            },
        };
        *self = PlayerStamina { level: next as u32 };
    }

    /// Whether there is stamina enough to run.
    pub fn can_run(&self) -> (r: bool)
        ensures
            r == (self@ > RUN_THRESHOLD),
    {
        self.level > RUN_THRESHOLD
    }
}

/// Stamina stays between zero and full after every tick, whatever the
/// sequence of activities and durations.
pub proof fn lemma_stamina_stays_in_range(level: nat, ticks: Seq<(PlayerActivity, nat)>)
    requires
        level <= STAMINA_SCALE,
    ensures
        0 <= stamina_over(level, ticks) <= STAMINA_SCALE,
    decreases ticks.len(),
{
    if ticks.len() > 0 {
        lemma_stamina_stays_in_range(level, ticks.drop_last());
    }
}

/// The breathing sound that follows low stamina.
#[derive(Clone, Copy, Debug, PartialEq, Eq, Structural)]
pub enum CurrentBreathingType {
    Fatigued,
    Intense,
    Exhausted,
}

/// The breathing that a stamina level calls for.
pub open spec fn breathing_for(level: nat) -> Option<CurrentBreathingType> {
    if level < 200_000 {
        Some(CurrentBreathingType::Exhausted)
    } else if level < 500_000 {
        Some(CurrentBreathingType::Intense)
    } else if level < 850_000 {
        Some(CurrentBreathingType::Fatigued)
    } else {
        None
    }
}

/// A sound that has played less than this long is not cut off.
pub const MIN_BREATH_PLAYBACK_MS: u64 = 500;

/// A change to the breathing audio: whether to stop what plays, and what to
/// play next.
#[derive(Clone, Copy, Debug, PartialEq, Eq, Structural)]
pub struct BreathChange {
    pub stop: bool,
    pub play: Option<CurrentBreathingType>,
}

impl CurrentBreathingType {
    /// The breathing that a stamina level calls for, if any.
    pub fn for_stamina(stamina: &PlayerStamina) -> (r: Option<CurrentBreathingType>)
        ensures
            r == breathing_for(stamina@),
    {
        let level = stamina.level();
        if level < 200_000 {
            Some(CurrentBreathingType::Exhausted)
        } else if level < 500_000 {
            Some(CurrentBreathingType::Intense)
        } else if level < 850_000 {
            Some(CurrentBreathingType::Fatigued)
        } else {
            None
        }
    }
}

/// The breathing that the player's audio plays.
#[derive(Clone, Copy, Debug, PartialEq, Eq, Structural)]
pub struct PlayerBreathPlayer(pub Option<CurrentBreathingType>);

impl PlayerBreathPlayer {
    /// Follows the stamina level: when it calls for other breathing, and the
    /// current sound is not playing or has played long enough, switches to it.
    pub fn update(&mut self, stamina: &PlayerStamina, is_playing: bool, playback_ms: u64) -> (r: Option<BreathChange>)
        ensures
            ({
                let wanted = breathing_for(stamina@);
                if wanted == old(self).0 || (is_playing && playback_ms < MIN_BREATH_PLAYBACK_MS) {
                    r is None && *final(self) == *old(self)
                } else {
                    r == Some(BreathChange { stop: is_playing, play: wanted }) && final(self).0 == wanted
                }
            }),
    {
        let wanted = CurrentBreathingType::for_stamina(stamina);
        if wanted == self.0 {
            return None;
        }
        if is_playing && playback_ms < MIN_BREATH_PLAYBACK_MS {
            return None;
        }
        self.0 = wanted;
        Some(BreathChange { stop: is_playing, play: wanted })
    }
}

} // verus!
