use survival_core::crafting::Inventory;
use survival_core::geometry::Point;
use survival_core::weapon::{target_indices, PlayerWeapon};
use survival_core::zombies::{AdmissionCurve, Agent, Hp, Population, FULL_HP};

fn pt(x: i32, y: i32) -> Point {
    Point { x, y }
}

fn agent(id: u64, x: i32, y: i32) -> Agent {
    Agent { id, position: pt(x, y), target: pt(0, 0), hp: Hp(FULL_HP) }
}

fn crowd() -> Vec<Agent> {
    vec![
        agent(10, 300, 0),
        agent(11, 0, 100),
        agent(12, 499, 0),
        agent(13, 500, 0),
        agent(14, -50, 0),
        agent(15, 0, -450),
        agent(16, 200, 200),
        agent(17, 2000, 0),
    ]
}

#[test]
fn targets_are_the_nearest_five_nearest_last() {
    let agents = crowd();
    let sel = target_indices(&pt(0, 0), &agents);
    let ids: Vec<u64> = sel.iter().map(|i| agents[*i].id).collect();
    assert_eq!(ids, vec![15, 10, 16, 11, 14]);
}

#[test]
fn few_agents_in_range_are_all_locked() {
    let agents = vec![agent(1, 600, 0), agent(2, 10, 0), agent(3, 0, 20)];
    let sel = target_indices(&pt(0, 0), &agents);
    assert_eq!(sel, vec![2, 1]);
    assert!(target_indices(&pt(0, 0), &vec![]).is_empty());
}

#[test]
fn retargeting_reports_dropped_targets() {
    let mut pop = Population::new(AdmissionCurve::standard());
    pop.agents = crowd();
    let mut weapon = PlayerWeapon::default();
    weapon.targets = vec![17, 14, 99];
    let gone = weapon.retarget(&pt(0, 0), &pop);
    assert_eq!(gone, vec![17, 99]);
    assert_eq!(weapon.targets, vec![15, 10, 16, 11, 14]);
}

#[test]
fn firing_without_ammo_does_nothing() {
    let mut pop = Population::new(AdmissionCurve::standard());
    pop.agents = vec![agent(5, 100, 0)];
    let mut weapon = PlayerWeapon::default();
    weapon.retarget(&pt(0, 0), &pop);
    let mut inv = Inventory::new();
    assert_eq!(weapon.try_fire(&mut inv, true, 1000, &pop), None);
    assert_eq!(inv.ammo_count(), 0);
    assert_eq!(weapon.targets, vec![5]);
}

#[test]
fn firing_spends_a_round_on_the_nearest_target() {
    let mut pop = Population::new(AdmissionCurve::standard());
    pop.agents = vec![agent(5, 100, 0), agent(6, 0, 40)];
    let mut weapon = PlayerWeapon::default();
    weapon.retarget(&pt(0, 0), &pop);
    let mut inv = Inventory::new();
    inv.add_ammo(3);
    assert_eq!(weapon.try_fire(&mut inv, false, 1000, &pop), None);
    assert_eq!(inv.ammo_count(), 3);
    assert_eq!(weapon.try_fire(&mut inv, true, 0, &pop), Some(pt(0, 40)));
    assert_eq!(inv.ammo_count(), 2);
    assert_eq!(weapon.targets, vec![5]);
    assert_eq!(weapon.try_fire(&mut inv, true, 100, &pop), None);
    assert_eq!(inv.ammo_count(), 2);
    assert_eq!(weapon.try_fire(&mut inv, true, 100, &pop), Some(pt(100, 0)));
    assert_eq!(inv.ammo_count(), 1);
    assert!(weapon.targets.is_empty());
    assert_eq!(weapon.try_fire(&mut inv, true, 1000, &pop), None);
    assert_eq!(inv.ammo_count(), 1);
}

#[test]
fn firing_at_a_vanished_target_keeps_the_round() {
    let mut pop = Population::new(AdmissionCurve::standard());
    pop.agents = vec![agent(5, 100, 0)];
    let mut weapon = PlayerWeapon::default();
    weapon.retarget(&pt(0, 0), &pop);
    pop.agents.clear();
    let mut inv = Inventory::new();
    inv.add_ammo(1);
    assert_eq!(weapon.try_fire(&mut inv, true, 500, &pop), None);
    assert_eq!(inv.ammo_count(), 1);
    assert!(weapon.targets.is_empty());
}
