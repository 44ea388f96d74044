use survival_core::geometry::Point;
use survival_core::zombies::{
    admits, target_population, AdmissionCurve, Agent, Hp, Population, SpawnSite, FULL_HP,
};

fn pt(x: i32, y: i32) -> Point {
    Point { x, y }
}

fn agent(id: u64, x: i32, y: i32) -> Agent {
    Agent { id, position: pt(x, y), target: pt(x, y), hp: Hp(FULL_HP) }
}

fn site() -> SpawnSite {
    SpawnSite { offset: pt(1500, 0), wander: pt(0, 300) }
}

#[test]
fn population_target_grows_and_caps() {
    assert_eq!(target_population(0), 75);
    assert_eq!(target_population(1249), 75);
    assert_eq!(target_population(1250), 76);
    assert_eq!(target_population(3749), 76);
    assert_eq!(target_population(3750), 77);
    assert_eq!(target_population(100_000), 115);
    assert_eq!(target_population(562_500), 300);
    assert_eq!(target_population(u64::MAX), 300);
}

#[test]
fn admission_falls_with_occupancy() {
    let curve = AdmissionCurve::standard();
    assert_eq!(curve.probability(0, 75), 1000);
    assert_eq!(curve.probability(75, 75), 0);
    assert_eq!(curve.probability(80, 75), 0);
    assert_eq!(curve.probability(10, 0), 0);
    let mut pairs = vec![];
    for target in [1u64, 7, 75, 120, 300] {
        for current in 0..=target + 2 {
            pairs.push((current, target));
        }
    }
    for &(c1, t1) in &pairs {
        for &(c2, t2) in &pairs {
            if c1 * t2 <= c2 * t1 {
                assert!(curve.probability(c1, t1) >= curve.probability(c2, t2));
            }
        }
    }
}

#[test]
fn curves_must_be_non_increasing_probabilities() {
    assert!(AdmissionCurve::new(vec![]).is_none());
    assert!(AdmissionCurve::new(vec![500, 600]).is_none());
    assert!(AdmissionCurve::new(vec![1001]).is_none());
    let c = AdmissionCurve::new(vec![900, 900, 10]).unwrap();
    assert_eq!(c.probability(0, 3), 900);
    assert_eq!(c.probability(2, 3), 10);
}

#[test]
fn a_roll_below_the_probability_admits() {
    assert!(admits(500, 499));
    assert!(!admits(500, 500));
    assert!(!admits(0, 0));
}

#[test]
fn spawning_waits_for_the_timer_and_the_target() {
    let always = AdmissionCurve::new(vec![1000]).unwrap();
    let mut pop = Population::new(always);
    assert_eq!(pop.spawn_tick(100, 0, &pt(0, 0), &site()), None);
    assert_eq!(pop.count(), 0);
    let id = pop.spawn_tick(400, 0, &pt(10, 20), &site());
    assert_eq!(id, Some(0));
    assert_eq!(pop.count(), 1);
    assert_eq!(pop.agents[0].position, pt(1510, 20));
    assert_eq!(pop.agents[0].target, pt(1510, 320));
    assert_eq!(pop.agents[0].hp, Hp(FULL_HP));
    let sites = vec![site(); 74];
    pop.populate(&pt(0, 0), &sites);
    assert_eq!(pop.count(), 75);
    for _ in 0..20 {
        assert_eq!(pop.spawn_tick(500, 0, &pt(0, 0), &site()), None);
    }
    assert_eq!(pop.count(), 75);
}

#[test]
fn population_never_passes_the_target() {
    let mut pop = Population::new(AdmissionCurve::standard());
    for tick in 0..400u64 {
        let elapsed = tick * 500;
        let before = pop.count();
        pop.spawn_tick(500, elapsed, &pt(0, 0), &site());
        assert!(pop.count() <= before + 1);
        assert!(pop.count() <= target_population(elapsed));
    }
}

#[test]
fn replacing_a_far_agent_keeps_the_count() {
    let mut pop = Population::new(AdmissionCurve::standard());
    pop.agents = vec![agent(1, 3600, 0), agent(2, 3500, 0), agent(3, 0, 100)];
    pop.next_id = 4;
    let far = pop.far_agents(&pt(0, 0));
    assert_eq!(far, vec![1]);
    let i = pop.index_of(1).unwrap();
    let new_id = pop.despawn_and_replace(i, &pt(0, 0), &site());
    assert_eq!(new_id, 4);
    assert_eq!(pop.count(), 3);
    assert_eq!(pop.index_of(1), None);
    assert_eq!(pop.agents[2].position, pt(1500, 0));
    assert!(pop.far_agents(&pt(0, 0)).is_empty());
}

#[test]
fn far_agent_outside_aggro_keeps_its_target() {
    let mut a = Agent { id: 0, position: pt(600, 0), target: pt(50, 0), hp: Hp(FULL_HP) };
    a.retarget(&pt(0, 0), &pt(0, 900));
    assert_eq!(a.target, pt(50, 0));
}

#[test]
fn near_agent_pursues_the_player() {
    let mut a = Agent { id: 0, position: pt(400, 0), target: pt(-900, 0), hp: Hp(FULL_HP) };
    a.retarget(&pt(0, 0), &pt(0, 900));
    assert_eq!(a.target, pt(0, 0));
}

#[test]
fn arrived_agent_wanders_from_its_position() {
    let mut a = Agent { id: 0, position: pt(600, 0), target: pt(700, 0), hp: Hp(FULL_HP) };
    a.retarget(&pt(0, 0), &pt(0, 900));
    assert_eq!(a.target, pt(600, 900));
}

#[test]
fn dead_agents_are_removed() {
    let mut pop = Population::new(AdmissionCurve::standard());
    pop.agents = vec![agent(1, 0, 0), agent(2, 5, 0), agent(3, 9, 0)];
    pop.agents[0].hp = Hp(0);
    pop.agents[2].hp = Hp(-5);
    assert_eq!(pop.remove_dead(), vec![1, 3]);
    assert_eq!(pop.agents, vec![agent(2, 5, 0)]);
}

#[test]
fn bullets_and_blasts_damage_listed_agents() {
    let mut pop = Population::new(AdmissionCurve::standard());
    pop.agents = vec![agent(1, 0, 0), agent(2, 5, 0), agent(3, 9, 0)];
    assert!(pop.bullet_hit(&vec![2, 99]));
    assert_eq!(pop.agents[1].hp, Hp(FULL_HP - 5));
    assert_eq!(pop.agents[0].hp, Hp(FULL_HP));
    assert!(!pop.bullet_hit(&vec![99]));
    assert_eq!(pop.blast(&vec![1, 3, 42]), 2);
    assert_eq!(pop.agents[0].hp, Hp(0));
    assert_eq!(pop.agents[1].hp, Hp(FULL_HP - 5));
    assert_eq!(pop.agents[2].hp, Hp(0));
}

#[test]
fn contact_with_an_agent_is_detected() {
    let mut pop = Population::new(AdmissionCurve::standard());
    pop.agents = vec![agent(1, 0, 0), agent(2, 5, 0)];
    assert!(pop.touches_any(&vec![7, 2]));
    assert!(!pop.touches_any(&vec![7]));
    assert!(!pop.touches_any(&vec![]));
}

#[test]
fn steering_turns_toward_the_target_side() {
    let a = Agent { id: 0, position: pt(0, 0), target: pt(10, -50), hp: Hp(FULL_HP) };
    assert_eq!(a.steer_sign(&pt(1000, 0)), 1);
    assert_eq!(a.steer_sign(&pt(-1000, 0)), -1);
    assert_eq!(a.steer_sign(&pt(0, 1000)), -1);
}

#[test]
fn populate_and_clear() {
    let mut pop = Population::new(AdmissionCurve::standard());
    let sites = vec![site(); 49];
    pop.populate(&pt(100, 100), &sites);
    assert_eq!(pop.count(), 49);
    assert!(pop.agents.iter().all(|a| a.position == pt(1600, 100)));
    let ids: Vec<u64> = pop.agents.iter().map(|a| a.id).collect();
    assert_eq!(ids, (0..49).collect::<Vec<u64>>());
    assert_eq!(pop.next_id, 49);
    pop.clear();
    assert_eq!(pop.count(), 0);
    assert_eq!(pop.spawn_timer.elapsed_ms(), 250);
}

#[test]
fn spawn_positions_saturate_at_the_world_edge() {
    let mut pop = Population::new(AdmissionCurve::standard());
    pop.spawn(&pt(i32::MAX - 10, 0), &pt(100, 0));
    assert_eq!(pop.agents[0].target, pt(i32::MAX, 0));
}

#[test]
fn admission_depends_on_roll_and_occupancy() {
    let mut pop = Population::new(AdmissionCurve::standard());
    assert!(pop.admits_spawn(0, 999));
    pop.populate(&pt(0, 0), &vec![site(); 38]);
    assert_eq!(pop.agents.len(), 38);
    assert!(pop.admits_spawn(0, 439));
    assert!(!pop.admits_spawn(0, 440));
    pop.populate(&pt(0, 0), &vec![site(); 37]);
    assert!(!pop.admits_spawn(0, 0));
    assert!(pop.admits_spawn(2500, 0));
}

#[test]
fn low_occupancy_always_spawns_when_the_timer_fires() {
    let mut pop = Population::new(AdmissionCurve::standard());
    for _ in 0..50 {
        let before = pop.count();
        assert!(pop.spawn_tick(500, 0, &pt(0, 0), &site()).is_some());
        assert_eq!(pop.count(), before + 1);
        pop.clear();
    }
}

#[test]
fn admission_spawns_exactly_when_the_roll_is_below() {
    let mut pop = Population::new(AdmissionCurve::standard());
    assert_eq!(pop.spawn_if_admitted(0, 999, &pt(0, 0), &site()), Some(0));
    pop.populate(&pt(0, 0), &vec![site(); 74]);
    assert_eq!(pop.spawn_if_admitted(0, 0, &pt(0, 0), &site()), None);
    assert_eq!(pop.count(), 75);
}

#[test]
fn despawn_pass_replaces_every_far_agent() {
    let mut pop = Population::new(AdmissionCurve::standard());
    pop.agents = vec![agent(1, 3600, 0), agent(2, 0, 100), agent(3, -4000, 0), agent(4, 10, 10)];
    pop.next_id = 5;
    let far = pop.far_agents(&pt(0, 0));
    let sites = vec![site(); far.len()];
    let removed = pop.despawn_faraway(&pt(0, 0), &sites);
    assert_eq!(removed, vec![1, 3]);
    assert_eq!(pop.count(), 4);
    let ids: Vec<u64> = pop.agents.iter().map(|a| a.id).collect();
    assert_eq!(ids, vec![2, 4, 5, 6]);
    assert_eq!(pop.agents[2].position, pt(1500, 0));
    assert!(pop.far_agents(&pt(0, 0)).is_empty());
}
