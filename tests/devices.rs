use survival_core::airdrops::{AirDrop, BONUS_AIRDROP_PARTS};
use survival_core::crafting::Part;
use survival_core::geometry::Point;
use survival_core::traps::{earns_bonus_airdrop, Alarm, AlarmEvent, BombEvents, ProximityBomb};
use survival_core::zombies::{AdmissionCurve, Agent, Hp, Population, FULL_HP};

fn crowd(n: u64) -> Population {
    let mut pop = Population::new(AdmissionCurve::standard());
    for id in 0..n {
        pop.agents.push(Agent { id, position: Point { x: id as i32, y: 0 }, target: Point { x: 0, y: 0 }, hp: Hp(FULL_HP) });
    }
    pop
}

fn quiet() -> BombEvents {
    BombEvents { armed: false, detonated: false, expired: false }
}

fn detonate_among(n: u64) -> (usize, bool) {
    let mut pop = crowd(n);
    let mut bomb = ProximityBomb::new();
    assert_eq!(bomb.tick(16, false), quiet());
    assert_eq!(bomb.tick(16, true), BombEvents { armed: true, detonated: false, expired: false });
    assert_eq!(bomb.tick(1999, false), quiet());
    let events = bomb.tick(1, false);
    assert!(events.detonated);
    let colliding: Vec<u64> = (0..n).collect();
    let killed = pop.blast(&colliding);
    assert!(pop.agents.iter().all(|a| a.hp == Hp(0)));
    assert_eq!(pop.remove_dead().len(), n as usize);
    (killed, earns_bonus_airdrop(killed))
}

#[test]
fn six_kills_earn_a_bonus_airdrop() {
    assert_eq!(detonate_among(6), (6, true));
    let drop = AirDrop::bonus();
    assert_eq!(drop.0.len(), BONUS_AIRDROP_PARTS);
    assert!(drop.0.iter().all(|p| *p != Part::Motor));
}

#[test]
fn three_kills_earn_no_bonus_airdrop() {
    assert_eq!(detonate_among(3), (3, false));
    assert!(!earns_bonus_airdrop(5));
}

#[test]
fn bomb_expires_after_its_lifetime() {
    let mut bomb = ProximityBomb::new();
    bomb.tick(0, true);
    assert_eq!(bomb.tick(2000, false), BombEvents { armed: false, detonated: true, expired: false });
    assert_eq!(bomb.tick(999, false), quiet());
    assert_eq!(bomb.tick(1, false), BombEvents { armed: false, detonated: false, expired: true });
    assert_eq!(bomb.tick(5000, true), quiet());
}

#[test]
fn one_long_tick_detonates_and_expires() {
    let mut bomb = ProximityBomb::new();
    bomb.tick(0, true);
    assert_eq!(bomb.tick(4000, false), BombEvents { armed: false, detonated: true, expired: true });
}

#[test]
fn alarm_alternates_until_its_lifetime_ends() {
    let mut alarm = Alarm::default();
    assert!(alarm.is_active());
    assert_eq!(alarm.tick(14_999), AlarmEvent::Unchanged);
    assert_eq!(alarm.tick(1), AlarmEvent::Deactivated);
    assert!(!alarm.is_active());
    assert_eq!(alarm.tick(4_999), AlarmEvent::Unchanged);
    assert_eq!(alarm.tick(1), AlarmEvent::Activated);
    assert!(alarm.is_active());
    assert_eq!(alarm.tick(15_000), AlarmEvent::Deactivated);
    assert_eq!(alarm.tick(5_000), AlarmEvent::Activated);
    assert_eq!(alarm.tick(19_999), AlarmEvent::Deactivated);
    assert_eq!(alarm.tick(1), AlarmEvent::Expired);
    assert_eq!(alarm.tick(1), AlarmEvent::Expired);
}

#[test]
fn bomb_step_kills_contacts_and_earns_bonus() {
    for (n, bonus) in [(6u64, true), (3u64, false)] {
        let mut pop = crowd(n);
        let mut bomb = ProximityBomb::new();
        let colliding: Vec<u64> = (0..n).collect();
        let armed = bomb.resolve(0, true, &colliding, &mut pop);
        assert!(armed.events.armed && armed.killed == 0 && armed.bonus_airdrop.is_none());
        assert!(pop.agents.iter().all(|a| a.hp == Hp(FULL_HP)));
        let outcome = bomb.resolve(2000, false, &colliding, &mut pop);
        assert!(outcome.events.detonated);
        assert_eq!(outcome.killed, n as usize);
        assert!(pop.agents.iter().all(|a| a.hp == Hp(0)));
        assert_eq!(outcome.bonus_airdrop.is_some(), bonus);
        if let Some(drop) = outcome.bonus_airdrop {
            assert_eq!(drop.0.len(), BONUS_AIRDROP_PARTS);
        }
    }
}
