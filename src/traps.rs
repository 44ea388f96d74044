//! The placeable hazard devices: the proximity bomb and the alarm.
use vstd::prelude::*;
use crate::airdrops::{AirDrop, BONUS_AIRDROP_PARTS};
use crate::crafting::lootable_parts;
use crate::timer::{Timer, TimerView, tick_view, fresh_view};
use crate::zombies::{Agent, Population, blasted, hit_count};

verus! {

/// The time from arming a proximity bomb to its detonation.
pub const DETONATE_MS: u64 = 2000;

/// The time from arming a proximity bomb to its removal.
pub const BOMB_LIFETIME_MS: u64 = 3000;

/// A detonation that kills more agents than this earns a bonus airdrop.
pub const KILLING_SPREE: usize = 5;

/// The time an alarm stays in place.
pub const ALARM_LIFETIME_MS: u64 = 60_000;

/// The time an alarm sounds before pausing.
pub const ALARM_ACTIVE_MS: u64 = 15_000;

/// The time an alarm pauses before sounding again.
pub const ALARM_INACTIVE_MS: u64 = 5_000;

/// The phase of a proximity bomb.
#[derive(Clone, Copy, Debug)]
pub enum BombPhase {
    /// Placed, waiting for contact.
    Idle,
    /// Touched: counting down to detonation and to removal.
    Armed { detonate: Timer, lifetime: Timer },
    /// Gone off: counting down to removal.
    Detonated { lifetime: Timer },
    /// Its lifetime has elapsed; the device is to be removed.
    Spent,
}

/// A [`BombPhase`] as mathematical values.
pub enum BombState {
    Idle,
    Armed { detonate: TimerView, lifetime: TimerView },
    Detonated { lifetime: TimerView },
    Spent,
}

impl View for BombPhase {
    type V = BombState;

    open spec fn view(&self) -> BombState {
        match self {
            BombPhase::Idle => BombState::Idle,
            BombPhase::Armed { detonate, lifetime } => BombState::Armed {
                detonate: detonate@,
                lifetime: lifetime@,
            },
            BombPhase::Detonated { lifetime } => BombState::Detonated { lifetime: lifetime@ },
            BombPhase::Spent => BombState::Spent,
        }
    }
}

/// What happened to a proximity bomb in one tick.
#[derive(Clone, Copy, Debug, PartialEq, Eq, Structural)]
pub struct BombEvents {
    /// It was touched and armed.
    pub armed: bool,
    /// It went off: every agent touching it takes lethal damage.
    pub detonated: bool,
    /// Its lifetime elapsed: it is to be removed.
    pub expired: bool,
}

/// One tick of a proximity bomb: `delta` milliseconds, with `contact` telling
/// whether anything newly touched it.
pub open spec fn bomb_step(s: BombState, delta: nat, contact: bool) -> (BombState, BombEvents) {
    match s {
        BombState::Idle => if contact {
            let lifetime = tick_view(fresh_view(BOMB_LIFETIME_MS as nat, false), delta);
            if lifetime.just_finished {
                (BombState::Spent, BombEvents { armed: true, detonated: false, expired: true })
            } else {
                (
                    BombState::Armed { detonate: fresh_view(DETONATE_MS as nat, false), lifetime },
                    BombEvents { armed: true, detonated: false, expired: false },
                )
            }
        } else {
            (BombState::Idle, BombEvents { armed: false, detonated: false, expired: false })
        },
        BombState::Armed { detonate, lifetime } => {
            let d = tick_view(detonate, delta);
            let l = tick_view(lifetime, delta);
            let boom = d.just_finished;
            let next = if l.just_finished {
                BombState::Spent
            } else if boom {
                BombState::Detonated { lifetime: l }
            } else {
                BombState::Armed { detonate: d, lifetime: l }
            };
            (next, BombEvents { armed: false, detonated: boom, expired: l.just_finished })
        },
        BombState::Detonated { lifetime } => {
            let l = tick_view(lifetime, delta);
            let next = if l.just_finished {
                BombState::Spent
            } else {
                BombState::Detonated { lifetime: l }
            };
            (next, BombEvents { armed: false, detonated: false, expired: l.just_finished })
        },
        BombState::Spent => (
            BombState::Spent,
            BombEvents { armed: false, detonated: false, expired: false },
        ),
    }
}

/// A placed proximity bomb.
pub struct ProximityBomb {
    pub phase: BombPhase,
}

impl ProximityBomb {
    /// A bomb that has just been placed.
    pub fn new() -> (r: ProximityBomb)
        ensures
            r.phase@ == BombState::Idle,
    {
        ProximityBomb { phase: BombPhase::Idle }
    }

    /// Advances the bomb by `delta_ms`; `contact` tells whether anything newly
    /// touched it this tick.
    pub fn tick(&mut self, delta_ms: u64, contact: bool) -> (r: BombEvents)
        ensures
            (final(self).phase@, r) == bomb_step(old(self).phase@, delta_ms as nat, contact),
    {
        let phase = self.phase;
        self.phase = BombPhase::Spent;
        match phase {
            BombPhase::Idle => {
                if contact {
                    let mut lifetime = Timer::new(BOMB_LIFETIME_MS, false);
                    lifetime.tick(delta_ms);
                    if lifetime.just_finished() {
                        self.phase = BombPhase::Spent;
                        BombEvents { armed: true, detonated: false, expired: true }
                    } else {
                        self.phase = BombPhase::Armed { detonate: Timer::new(DETONATE_MS, false), lifetime };
                        BombEvents { armed: true, detonated: false, expired: false }
                    }
                } else {
                    self.phase = BombPhase::Idle;
                    BombEvents { armed: false, detonated: false, expired: false }
                }
            },
            BombPhase::Armed { mut detonate, mut lifetime } => {
                detonate.tick(delta_ms);
                lifetime.tick(delta_ms);
                let boom = detonate.just_finished();
                let expired = lifetime.just_finished();
                if expired {
                    self.phase = BombPhase::Spent;
                } else if boom {
                    self.phase = BombPhase::Detonated { lifetime };
                } else {
                    self.phase = BombPhase::Armed { detonate, lifetime };
                }
                BombEvents { armed: false, detonated: boom, expired }
            },
            BombPhase::Detonated { mut lifetime } => {
                lifetime.tick(delta_ms);
                let expired = lifetime.just_finished();
                if !expired {
                    self.phase = BombPhase::Detonated { lifetime };
                }
                BombEvents { armed: false, detonated: false, expired }
            },
            BombPhase::Spent => BombEvents { armed: false, detonated: false, expired: false },
        }
    }
}

/// What one tick of a proximity bomb did: its events, the agents its
/// detonation killed, and the bonus airdrop that a killing spree earns.
pub struct BombOutcome {
    pub events: BombEvents,
    pub killed: usize,
    pub bonus_airdrop: Option<AirDrop>,
}

impl ProximityBomb {
    /// Advances the bomb by `delta_ms` (`contact`: whether anything newly
    /// touched it) and, when it detonates, deals lethal damage to the agents
    /// among `colliding`; killing more than `KILLING_SPREE` of them earns a
    /// bonus airdrop.
    pub fn resolve(
        &mut self,
        delta_ms: u64,
        contact: bool,
        colliding: &Vec<u64>,
        population: &mut Population,
    ) -> (r: BombOutcome)
        requires
            old(population).wf(),
        ensures
            final(population).wf(),
            (final(self).phase@, r.events) == bomb_step(old(self).phase@, delta_ms as nat, contact),
            final(population).next_id == old(population).next_id,
            final(population).spawn_timer == old(population).spawn_timer,
            final(population).curve == old(population).curve,
            r.events.detonated ==> {
                &&& final(population).agents@ == old(population).agents@.map_values(
                    |a: Agent| blasted(a, colliding@),
                )
                &&& r.killed == hit_count(old(population).agents@, colliding@)
            },
            !r.events.detonated ==> final(population).agents@ == old(population).agents@
                && r.killed == 0,
            r.bonus_airdrop is Some <==> r.killed > KILLING_SPREE,
            r.bonus_airdrop matches Some(d) ==> d.0@.len() == BONUS_AIRDROP_PARTS && forall|k: int|
                0 <= k < d.0@.len() ==> lootable_parts().contains(#[trigger] d.0@[k]),
    {
        let events = self.tick(delta_ms, contact);
        let killed = if events.detonated {
            population.blast(colliding)
        } else {
            0
        };
        let bonus_airdrop = if earns_bonus_airdrop(killed) {
            Some(AirDrop::bonus())
        } else {
            None
        };
        BombOutcome { events, killed, bonus_airdrop }
    }
}

/// Whether a detonation that killed `killed` agents earns a bonus airdrop.
pub fn earns_bonus_airdrop(killed: usize) -> (r: bool)
    ensures
        r == (killed > KILLING_SPREE),
{
    killed > KILLING_SPREE
}

/// The phase of an alarm, with the timer of that phase.
#[derive(Clone, Copy, Debug)]
pub enum AlarmPhase {
    Active(Timer),
    Inactive(Timer),
}

/// What happened to an alarm in one tick.
#[derive(Clone, Copy, Debug, PartialEq, Eq, Structural)]
pub enum AlarmEvent {
    Unchanged,
    /// It fell silent.
    Deactivated,
    /// It started sounding.
    Activated,
    /// Its lifetime elapsed: it is to be removed.
    Expired,
}

/// An [`Alarm`] as mathematical values.
pub struct AlarmState {
    pub lifetime: TimerView,
    pub active: bool,
    pub period: TimerView,
}

/// One tick of `delta` milliseconds of an alarm.
pub open spec fn alarm_step(s: AlarmState, delta: nat) -> (AlarmState, AlarmEvent) {
    let lifetime = tick_view(s.lifetime, delta);
    if lifetime.finished {
        (AlarmState { lifetime, ..s }, AlarmEvent::Expired)
    } else {
        let period = tick_view(s.period, delta);
        if !period.just_finished {
            (AlarmState { lifetime, active: s.active, period }, AlarmEvent::Unchanged)
        } else if s.active {
            (
                AlarmState { lifetime, active: false, period: fresh_view(ALARM_INACTIVE_MS as nat, true) },
                AlarmEvent::Deactivated,
            )
        } else {
            (
                AlarmState { lifetime, active: true, period: fresh_view(ALARM_ACTIVE_MS as nat, true) },
                AlarmEvent::Activated,
            )
        }
    }
}

/// A placed alarm: it alternates between sounding and pausing until its
/// lifetime elapses.
pub struct Alarm {
    pub lifetime: Timer,
    pub phase: AlarmPhase,
}

impl View for Alarm {
    type V = AlarmState;

    open spec fn view(&self) -> AlarmState {
        match self.phase {
            AlarmPhase::Active(t) => AlarmState { lifetime: self.lifetime@, active: true, period: t@ },
            AlarmPhase::Inactive(t) => AlarmState { lifetime: self.lifetime@, active: false, period: t@ },
        }
    }
}

impl Default for Alarm {
    /// A newly placed alarm, sounding.
    fn default() -> (r: Alarm)
        ensures
            r@ == (AlarmState {
                lifetime: fresh_view(ALARM_LIFETIME_MS as nat, false),
                active: true,
                period: fresh_view(ALARM_ACTIVE_MS as nat, true),
            }),
    {
        Alarm { lifetime: Timer::new(ALARM_LIFETIME_MS, false), phase: AlarmPhase::Active(Timer::new(ALARM_ACTIVE_MS, true)) }
    }
}

impl Alarm {
    /// Whether the alarm is sounding.
    pub fn is_active(&self) -> (r: bool)
        ensures
            r == self@.active,
    {
        match self.phase {
            AlarmPhase::Active(_) => true,
            AlarmPhase::Inactive(_) => false,
        }
    }

    /// Advances the alarm by `delta_ms`.
    pub fn tick(&mut self, delta_ms: u64) -> (r: AlarmEvent)
        ensures
            (final(self)@, r) == alarm_step(old(self)@, delta_ms as nat),
    {
        self.lifetime.tick(delta_ms);
        if self.lifetime.finished() {
            return AlarmEvent::Expired;
        }
        let phase = self.phase;
        match phase {
            AlarmPhase::Active(mut t) => {
                t.tick(delta_ms);
                if t.just_finished() {
                    self.phase = AlarmPhase::Inactive(Timer::new(ALARM_INACTIVE_MS, true));
                    AlarmEvent::Deactivated
                } else {
                    self.phase = AlarmPhase::Active(t);
                    AlarmEvent::Unchanged
                }
            },
            AlarmPhase::Inactive(mut t) => {
                t.tick(delta_ms);
                if t.just_finished() {
                    self.phase = AlarmPhase::Active(Timer::new(ALARM_ACTIVE_MS, true));
                    AlarmEvent::Activated
                } else {
                    self.phase = AlarmPhase::Inactive(t);
                    AlarmEvent::Unchanged
                }
            },
        }
    }
}

} // verus!
