//! The hostile-agent population controller: spawn admission, placement,
//! target acquisition, despawning by distance, death and contact.
use vstd::prelude::*;
use crate::geometry::{Point, dist2, is_within, offset_of};
use crate::timer::{Timer, tick_view, fresh_view};
use rand::Rng;

verus! {

/// The health an agent spawns with.
pub const FULL_HP: i32 = 10;

/// Within this distance of the player an agent pursues the player.
pub const AGGRO_RADIUS: u32 = 500;

/// Within this distance of its target an agent has arrived and picks a new one.
pub const ARRIVAL_RADIUS: u32 = 200;

/// Beyond this distance from the player an agent is replaced by one nearby.
pub const DESPAWN_RADIUS: u32 = 3500;

/// The population target at the start of a round.
pub const BASE_POPULATION: u64 = 75;

/// The population target never exceeds this.
pub const MAX_POPULATION: u64 = 300;

/// The population target grows by one every this many milliseconds.
pub const POPULATION_GROWTH_MS: u64 = 2500;

/// The period of the spawn timer.
pub const SPAWN_PERIOD_MS: u64 = 500;

/// Admission probabilities are in thousandths.
pub const PROBABILITY_SCALE: u32 = 1000;

/// An agent's health.
#[derive(Clone, Copy, Debug, PartialEq, Eq, Structural)]
pub struct Hp(pub i32);

/// A hostile agent.
#[derive(Clone, Copy, Debug, PartialEq, Eq, Structural)]
pub struct Agent {
    pub id: u64,
    pub position: Point,
    /// The point the agent moves toward.
    pub target: Point,
    pub hp: Hp,
}

/// The random draws that place one new agent: its displacement from the
/// player, and its first wander target's displacement from its own position.
#[derive(Clone, Copy, Debug, PartialEq, Eq, Structural)]
pub struct SpawnSite {
    pub offset: Point,
    pub wander: Point,
}

/// A newly spawned agent with identifier `id` at `origin`.
pub open spec fn fresh_agent(id: u64, origin: Point, wander: Point) -> Agent {
    Agent { id, position: origin, target: offset_of(origin, wander), hp: Hp(FULL_HP) }
}

/// The target an agent picks: the player when it is within aggro range,
/// otherwise a new wander point when the agent has arrived at its target,
/// otherwise the target it has.
pub open spec fn next_target(a: Agent, player: Point, wander: Point) -> Point {
    if is_within(a.position, player, AGGRO_RADIUS) {
        player
    } else if is_within(a.position, a.target, ARRIVAL_RADIUS) {
        offset_of(a.position, wander)
    } else {
        a.target
    }
}

/// Whether an agent is too far from the player to be kept.
pub open spec fn is_far(a: Agent, player: Point) -> bool {
    dist2(a.position, player) > DESPAWN_RADIUS * DESPAWN_RADIUS
}

/// The identifiers of the agents too far from the player, in order.
pub open spec fn far_ids(s: Seq<Agent>, player: Point) -> Seq<u64>
    decreases s.len(),
{
    if s.len() == 0 {
        Seq::empty()
    } else if is_far(s.last(), player) {
        far_ids(s.drop_last(), player).push(s.last().id)
    } else {
        far_ids(s.drop_last(), player)
    }
}

/// The agents of `s` that satisfy `keep`, in order.
pub open spec fn kept(s: Seq<Agent>, keep: spec_fn(Agent) -> bool) -> Seq<Agent>
    decreases s.len(),
{
    if s.len() == 0 {
        Seq::empty()
    } else if keep(s.last()) {
        kept(s.drop_last(), keep).push(s.last())
    } else {
        kept(s.drop_last(), keep)
    }
}

/// The living agents (health above zero), in order.
pub open spec fn living(s: Seq<Agent>) -> Seq<Agent> {
    kept(s, |a: Agent| a.hp.0 > 0)
}

/// The agents within the despawn radius of the player, in order.
pub open spec fn near(s: Seq<Agent>, player: Point) -> Seq<Agent> {
    kept(s, |a: Agent| !is_far(a, player))
}

/// The identifiers of the dead agents (health at or below zero), in order.
pub open spec fn dead_ids(s: Seq<Agent>) -> Seq<u64>
    decreases s.len(),
{
    if s.len() == 0 {
        Seq::empty()
    } else if s.last().hp.0 <= 0 {
        dead_ids(s.drop_last()).push(s.last().id)
    } else {
        dead_ids(s.drop_last())
    }
}

/// How many of the agents have an identifier in `ids`.
pub open spec fn hit_count(s: Seq<Agent>, ids: Seq<u64>) -> nat
    decreases s.len(),
{
    if s.len() == 0 {
        0
    } else {
        hit_count(s.drop_last(), ids) + if ids.contains(s.last().id) {
            1nat
        } else {
            0nat
        }
    }
}

/// The population target after `elapsed_ms` of a round: it starts at the base
/// population, grows by one per growth period (rounded to nearest), and is
/// capped.
pub open spec fn population_target(elapsed_ms: nat) -> nat {
    let grown = BASE_POPULATION + (elapsed_ms + POPULATION_GROWTH_MS / 2) / (
    POPULATION_GROWTH_MS as int);
    if grown < MAX_POPULATION {
        grown as nat
    } else {
        MAX_POPULATION as nat
    }
}

/// The admission probability, in thousandths, for a population of `current`
/// against `target`: zero at or above the target, and otherwise the curve's
/// sample at the occupancy ratio `current / target`.
pub open spec fn admission_probability(samples: Seq<u32>, current: nat, target: nat) -> nat {
    if current < target {
        samples[(current * samples.len() / target) as int] as nat
    } else {
        0
    }
}

/// The population target after `elapsed_ms` of a round.
pub fn target_population(elapsed_ms: u64) -> (r: u64)
    ensures
        r == population_target(elapsed_ms as nat),
{
    if elapsed_ms >= 1_000_000 {
        assert((elapsed_ms + 1250) / 2500 >= 400) by (nonlinear_arith)
            requires
                elapsed_ms >= 1_000_000,
        ;
        MAX_POPULATION
    } else {
        let grown = BASE_POPULATION + (elapsed_ms + POPULATION_GROWTH_MS / 2) / POPULATION_GROWTH_MS;
        if grown < MAX_POPULATION {
            grown
        } else {
            MAX_POPULATION
        }
    }
}

/// A non-increasing curve of admission probabilities, in thousandths, sampled
/// at evenly spaced occupancy ratios from zero up to (not including) one.
#[derive(Clone, Debug)]
pub struct AdmissionCurve {
    pub samples: Vec<u32>,
}

/// Whether `samples` make an admission curve.
pub open spec fn valid_curve(samples: Seq<u32>) -> bool {
    &&& 0 < samples.len() <= 1000
    &&& forall|i: int| 0 <= i < samples.len() ==> #[trigger] samples[i] <= PROBABILITY_SCALE
    &&& forall|i: int, j: int| 0 <= i <= j < samples.len() ==> #[trigger] samples[j] <= #[trigger] samples[i]
}

impl AdmissionCurve {
    pub open spec fn wf(&self) -> bool {
        valid_curve(self.samples@)
    }

    /// The curve with the given samples, if they are non-empty, at most a
    /// thousand, none above certainty, and non-increasing.
    pub fn new(samples: Vec<u32>) -> (r: Option<AdmissionCurve>)
        ensures
            r is Some <==> valid_curve(samples@),
            r matches Some(c) ==> c.samples@ == samples@,
    {
        let n = samples.len();
        if n == 0 || n > 1000 {
            return None;
        }
        let mut i: usize = 0;
        while i < n
            invariant
                n == samples@.len(),
                0 < n <= 1000,
                i <= n,
                forall|k: int| 0 <= k < i ==> #[trigger] samples@[k] <= PROBABILITY_SCALE,
                forall|k: int| 0 < k < i ==> #[trigger] samples@[k] <= samples@[k - 1],
            decreases n - i,
        {
            if samples[i] > PROBABILITY_SCALE {
                return None;
            }
            if i > 0 && samples[i] > samples[i - 1] {
                return None;
            }
            i = i + 1;
        }
        proof {
            assert forall|a: int, b: int| 0 <= a <= b < samples@.len() implies #[trigger] samples@[b]
                <= #[trigger] samples@[a] by {
                lemma_adjacent_order(samples@, a, b);
            }
        }
        Some(AdmissionCurve { samples })
    }

    /// A curve that admits almost surely at low occupancy and tapers off
    /// toward the target.
    pub fn standard() -> (r: AdmissionCurve)
        ensures
            r.wf(),
    {
        let samples = vec![1000u32, 950, 850, 720, 580, 440, 310, 200, 110, 40];
        let r = AdmissionCurve::new(samples);
        match r {
            Some(c) => c,
            None => {
                assert(false);
                AdmissionCurve { samples: Vec::new() }
            },
        }
    }

    /// The admission probability, in thousandths, for a population of
    /// `current` against `target`.
    pub fn probability(&self, current: u64, target: u64) -> (r: u32)
        requires
            self.wf(),
        ensures
            r == admission_probability(self.samples@, current as nat, target as nat),
            r <= PROBABILITY_SCALE,
    {
        if current >= target {
            return 0;
        }
        let n = self.samples.len();
        assert(current as u128 * n as u128 <= 0xffff_ffff_ffff_ffff * 1000) by (nonlinear_arith)
            requires
                n <= 1000,
        ;
        let idx = (current as u128 * n as u128) / target as u128;
        assert(idx < n) by {
            lemma_ratio_index(current as nat, target as nat, n as nat);
        }
        self.samples[idx as usize]
    }
}

proof fn lemma_adjacent_order(s: Seq<u32>, a: int, b: int)
    requires
        0 <= a <= b < s.len(),
        forall|k: int| 0 < k < s.len() ==> #[trigger] s[k] <= s[k - 1],
    ensures
        s[b] <= s[a],
    decreases b - a,
{
    if a < b {
        lemma_adjacent_order(s, a, b - 1);
        assert(s[b] <= s[b - 1]);
    }
}

proof fn lemma_ratio_index(current: nat, target: nat, n: nat)
    requires
        current < target,
        n > 0,
    ensures
        current * n / target < n,
{
    assert(current * n < target * n) by (nonlinear_arith)
        requires
            current < target,
            n > 0,
    ;
    assert(target * n == n * target) by (nonlinear_arith);
    vstd::arithmetic::div_mod::lemma_div_by_multiple_is_strongly_ordered(
        (current * n) as int,
        (n * target) as int,
        n as int,
        target as int,
    );
    vstd::arithmetic::div_mod::lemma_div_by_multiple(n as int, target as int);
}

/// Whether a draw of `roll` (thousandths, below a thousand) admits a spawn at
/// the given probability.
pub fn admits(probability: u32, roll: u32) -> (r: bool)
    ensures
        r == (roll < probability),
{
    roll < probability
}

/// Relies on rand's `Rng::gen_range` on `thread_rng`: a value in the half-open
/// range, which must not be empty.
#[verifier::external_body]
fn roll_below(bound: u32) -> (r: u32)
    requires
        bound > 0,
    ensures
        r < bound,
{
    rand::thread_rng().gen_range(0..bound)
}

/// An agent after a bullet hit, if its identifier is in `ids`.
pub open spec fn shot(a: Agent, ids: Seq<u64>) -> Agent {
    if ids.contains(a.id) {
        Agent { hp: Hp(if a.hp.0 >= i32::MIN + BULLET_DAMAGE { (a.hp.0 - BULLET_DAMAGE) as i32 } else { i32::MIN }), ..a }
    } else {
        a
    }
}

/// An agent after a blast, if its identifier is in `ids`.
pub open spec fn blasted(a: Agent, ids: Seq<u64>) -> Agent {
    if ids.contains(a.id) {
        Agent { hp: Hp(0), ..a }
    } else {
        a
    }
}

/// The health one bullet takes.
pub const BULLET_DAMAGE: i32 = 5;

pub(crate) fn contains_id(ids: &Vec<u64>, id: u64) -> (r: bool)
    ensures
        r == ids@.contains(id),
{
    let mut i: usize = 0;
    while i < ids.len()
        invariant
            i <= ids@.len(),
            forall|k: int| 0 <= k < i ==> ids@[k] != id,
        decreases ids@.len() - i,
    {
        if ids[i] == id {
            return true;
        }
        i = i + 1;
    }
    false
}

impl Agent {
    /// Picks the agent's target for this tick; `wander` is the displacement of
    /// a new wander target from the agent, used only when it has arrived.
    pub fn retarget(&mut self, player: &Point, wander: &Point)
        ensures
            *final(self) == (Agent { target: next_target(*old(self), *player, *wander), ..*old(self) }),
    {
        if self.position.is_within(player, AGGRO_RADIUS) {
            self.target = *player;
        } else if self.position.is_within(&self.target, ARRIVAL_RADIUS) {
            self.target = self.position.offset(wander);
        }
    }

    /// The direction to turn toward the target: 1 when the target lies on the
    /// side of `x_axis` (the agent's local x axis) or straight ahead, -1 otherwise.
    pub fn steer_sign(&self, x_axis: &Point) -> (r: i32)
        ensures
            r == if x_axis.x * (self.target.x - self.position.x) + x_axis.y * (self.target.y
                - self.position.y) >= 0 {
                1i32
            } else {
                -1i32
            },
    {
        if self.position.component_toward(x_axis, &self.target) >= 0 {
            1
        } else {
            -1
        }
    }
}

/// Whether identifiers rise strictly along `s`, so that no two agents share one.
pub open spec fn ids_ascending(s: Seq<Agent>) -> bool {
    forall|i: int, j: int| 0 <= i < j < s.len() ==> #[trigger] s[i].id < #[trigger] s[j].id
}

/// Whether every identifier in `s` is below `bound`.
pub open spec fn ids_below(s: Seq<Agent>, bound: u64) -> bool {
    forall|i: int| 0 <= i < s.len() ==> #[trigger] s[i].id < bound
}

/// The agents that spawn, one per site around `player`, numbered from `first_id`.
pub open spec fn spawned(first_id: u64, player: Point, sites: Seq<SpawnSite>) -> Seq<Agent> {
    Seq::new(
        sites.len(),
        |k: int| fresh_agent((first_id + k) as u64, offset_of(player, sites[k].offset), sites[k].wander),
    )
}

proof fn lemma_kept(s: Seq<Agent>, keep: spec_fn(Agent) -> bool)
    ensures
        forall|x: Agent| kept(s, keep).contains(x) ==> s.contains(x),
        ids_ascending(s) ==> ids_ascending(kept(s, keep)),
    decreases s.len(),
{
    if s.len() > 0 {
        let d = s.drop_last();
        lemma_kept(d, keep);
        let k0 = kept(d, keep);
        assert forall|x: Agent| k0.contains(x) implies s.contains(x) by {
            assert(d.contains(x));
            let i = choose|i: int| 0 <= i < d.len() && d[i] == x;
            assert(s[i] == x);
        }
        if keep(s.last()) {
            let k = k0.push(s.last());
            assert(kept(s, keep) == k);
            assert forall|x: Agent| k.contains(x) implies s.contains(x) by {
                let i = choose|i: int| 0 <= i < k.len() && k[i] == x;
                if i < k0.len() {
                    assert(k0[i] == x);
                } else {
                    assert(s[s.len() - 1] == x);
                }
            }
            if ids_ascending(s) {
                assert(ids_ascending(d));
                assert forall|i: int, j: int| 0 <= i < j < k.len() implies #[trigger] k[i].id < #[trigger] k[j].id by {
                    if j < k0.len() {
                        assert(k[i] == k0[i] && k[j] == k0[j]);
                    } else {
                        assert(k[i] == k0[i]);
                        assert(k0.contains(k0[i]));
                        assert(d.contains(k0[i]));
                        let m = choose|m: int| 0 <= m < d.len() && d[m] == k0[i];
                        assert(s[m] == d[m]);
                        assert(s[m].id < s[s.len() - 1].id);
                    }
                }
            }
        } else {
            assert(kept(s, keep) == k0);
            if ids_ascending(s) {
                assert(ids_ascending(d));
            }
        }
    }
}

proof fn lemma_near_and_far(s: Seq<Agent>, player: Point)
    ensures
        near(s, player).len() + far_ids(s, player).len() == s.len(),
    decreases s.len(),
{
    if s.len() > 0 {
        lemma_near_and_far(s.drop_last(), player);
    }
}

/// The live hostile agents and the state that governs their number.
pub struct Population {
    pub agents: Vec<Agent>,
    /// The identifier the next spawned agent gets.
    pub next_id: u64,
    pub spawn_timer: Timer,
    pub curve: AdmissionCurve,
}

impl Population {
    /// The curve is valid, identifiers rise along the agents (so each is
    /// unique), and all are below the next identifier to hand out.
    pub open spec fn wf(&self) -> bool {
        &&& self.curve.wf()
        &&& ids_ascending(self.agents@)
        &&& ids_below(self.agents@, self.next_id)
    }

    proof fn lemma_keep_wf(&self, s: Seq<Agent>, keep: spec_fn(Agent) -> bool)
        requires
            self.wf(),
            s == kept(self.agents@, keep),
        ensures
            ids_ascending(s),
            ids_below(s, self.next_id),
    {
        lemma_kept(self.agents@, keep);
        assert forall|i: int| 0 <= i < s.len() implies #[trigger] s[i].id < self.next_id by {
            assert(s.contains(s[i]));
            assert(kept(self.agents@, keep).contains(s[i]));
            assert(self.agents@.contains(s[i]));
            let m = choose|m: int| 0 <= m < self.agents@.len() && self.agents@[m] == s[i];
            assert(self.agents@[m].id < self.next_id);
        }
    }

    /// No agents, with the spawn timer at its start.
    pub fn new(curve: AdmissionCurve) -> (r: Population)
        requires
            curve.wf(),
        ensures
            r.wf(),
            r.agents@.len() == 0,
            r.next_id == 0,
            r.spawn_timer@ == fresh_view(SPAWN_PERIOD_MS as nat, true),
            r.curve.samples@ == curve.samples@,
    {
        Population { agents: Vec::new(), next_id: 0, spawn_timer: Timer::new(SPAWN_PERIOD_MS, true), curve }
    }

    /// The number of live agents.
    pub fn count(&self) -> (r: u64)
        ensures
            r == self.agents@.len(),
    {
        self.agents.len() as u64
    }

    /// Spawns an agent at `origin` whose first target is `wander` away from it.
    /// Returns its identifier.
    pub fn spawn(&mut self, origin: &Point, wander: &Point) -> (r: u64)
        requires
            old(self).wf(),
            old(self).next_id < u64::MAX,
        ensures
            final(self).wf(),
            r == old(self).next_id,
            final(self).agents@ == old(self).agents@.push(fresh_agent(r, *origin, *wander)),
            final(self).next_id == old(self).next_id + 1,
            final(self).spawn_timer == old(self).spawn_timer,
            final(self).curve == old(self).curve,
    {
        let id = self.next_id;
        self.agents.push(Agent { id, position: *origin, target: origin.offset(wander), hp: Hp(FULL_HP) });
        self.next_id = id + 1;
        proof {
            let s = self.agents@;
            assert forall|i: int, j: int| 0 <= i < j < s.len() implies #[trigger] s[i].id < #[trigger] s[j].id by {
                if j < s.len() - 1 {
                    assert(s[i] == old(self).agents@[i] && s[j] == old(self).agents@[j]);
                } else {
                    assert(s[i] == old(self).agents@[i]);
                }
            }
            assert forall|i: int| 0 <= i < s.len() implies #[trigger] s[i].id < self.next_id by {
                if i < s.len() - 1 {
                    assert(s[i] == old(self).agents@[i]);
                }
            }
        }
        id
    }

    /// Spawns one agent per site around `player`, numbered in order from the
    /// next identifier.
    pub fn populate(&mut self, player: &Point, sites: &Vec<SpawnSite>)
        requires
            old(self).wf(),
            old(self).next_id + sites@.len() <= u64::MAX,
        ensures
            final(self).wf(),
            final(self).agents@ == old(self).agents@ + spawned(old(self).next_id, *player, sites@),
            final(self).next_id == old(self).next_id + sites@.len(),
            final(self).spawn_timer == old(self).spawn_timer,
            final(self).curve == old(self).curve,
    {
        let mut k: usize = 0;
        while k < sites.len()
            invariant
                k <= sites@.len(),
                old(self).next_id + sites@.len() <= u64::MAX,
                self.wf(),
                self.agents@ == old(self).agents@ + spawned(old(self).next_id, *player, sites@.take(k as int)),
                self.next_id == old(self).next_id + k,
                self.spawn_timer == old(self).spawn_timer,
                self.curve == old(self).curve,
            decreases sites@.len() - k,
        {
            let site = sites[k];
            let origin = player.offset(&site.offset);
            self.spawn(&origin, &site.wander);
            assert(spawned(old(self).next_id, *player, sites@.take(k + 1)) =~= spawned(
                old(self).next_id,
                *player,
                sites@.take(k as int),
            ).push(fresh_agent((old(self).next_id + k) as u64, origin, site.wander)));
            assert(self.agents@ =~= old(self).agents@ + spawned(old(self).next_id, *player, sites@.take(k + 1)));
            k = k + 1;
        }
        assert(sites@.take(sites@.len() as int) =~= sites@);
    }

    /// Whether a draw of `roll` admits a spawn, `round_elapsed_ms` into the
    /// round, at the current population.
    pub fn admits_spawn(&self, round_elapsed_ms: u64, roll: u32) -> (r: bool)
        requires
            self.wf(),
        ensures
            r == (roll < admission_probability(
                self.curve.samples@,
                self.agents@.len(),
                population_target(round_elapsed_ms as nat),
            )),
    {
        let target = target_population(round_elapsed_ms);
        let p = self.curve.probability(self.count(), target);
        admits(p, roll)
    }

    /// Spawns an agent at `site` around `player` exactly when the draw `roll`
    /// admits one, `round_elapsed_ms` into the round. Returns its identifier.
    pub fn spawn_if_admitted(&mut self, round_elapsed_ms: u64, roll: u32, player: &Point, site: &SpawnSite) -> (r: Option<u64>)
        requires
            old(self).wf(),
            old(self).next_id < u64::MAX,
        ensures
            final(self).wf(),
            final(self).spawn_timer == old(self).spawn_timer,
            final(self).curve == old(self).curve,
            r is Some <==> roll < admission_probability(
                old(self).curve.samples@,
                old(self).agents@.len(),
                population_target(round_elapsed_ms as nat),
            ),
            r is None ==> final(self).agents@ == old(self).agents@ && final(self).next_id
                == old(self).next_id,
            r matches Some(id) ==> {
                &&& id == old(self).next_id
                &&& final(self).agents@ == old(self).agents@.push(
                    fresh_agent(id, offset_of(*player, site.offset), site.wander),
                )
                &&& final(self).next_id == old(self).next_id + 1
            },
    {
        if !self.admits_spawn(round_elapsed_ms, roll) {
            return None;
        }
        let origin = player.offset(&site.offset);
        let id = self.spawn(&origin, &site.wander);
        Some(id)
    }

    /// Advances the spawn timer by `delta_ms`; when it fires, draws whether to
    /// admit an agent and, if so, spawns one at `site` around `player`.
    /// Returns the identifier of the spawned agent.
    pub fn spawn_tick(
        &mut self,
        delta_ms: u64,
        round_elapsed_ms: u64,
        player: &Point,
        site: &SpawnSite,
    ) -> (r: Option<u64>)
        requires
            old(self).wf(),
            old(self).next_id < u64::MAX,
        ensures
            final(self).wf(),
            final(self).spawn_timer@ == tick_view(old(self).spawn_timer@, delta_ms as nat),
            final(self).curve == old(self).curve,
            ({
                let p = admission_probability(
                    old(self).curve.samples@,
                    old(self).agents@.len(),
                    population_target(round_elapsed_ms as nat),
                );
                &&& final(self).spawn_timer@.just_finished && p == PROBABILITY_SCALE ==> r is Some
                &&& !final(self).spawn_timer@.just_finished || p == 0 ==> r is None
            }),
            r is None ==> final(self).agents@ == old(self).agents@ && final(self).next_id
                == old(self).next_id,
            r matches Some(id) ==> {
                &&& final(self).spawn_timer@.just_finished
                &&& old(self).agents@.len() < population_target(round_elapsed_ms as nat)
                &&& id == old(self).next_id
                &&& final(self).agents@ == old(self).agents@.push(
                    fresh_agent(id, offset_of(*player, site.offset), site.wander),
                )
                &&& final(self).next_id == old(self).next_id + 1
            },
    {
        self.spawn_timer.tick(delta_ms);
        if !self.spawn_timer.just_finished() {
            return None;
        }
        let roll = roll_below(PROBABILITY_SCALE);
        self.spawn_if_admitted(round_elapsed_ms, roll, player, site)
    }

    /// The identifiers of the agents beyond the despawn radius, in order.
    pub fn far_agents(&self, player: &Point) -> (r: Vec<u64>)
        ensures
            r@ == far_ids(self.agents@, *player),
    {
        let mut r: Vec<u64> = Vec::new();
        let mut i: usize = 0;
        while i < self.agents.len()
            invariant
                i <= self.agents@.len(),
                r@ == far_ids(self.agents@.take(i as int), *player),
            decreases self.agents@.len() - i,
        {
            assert(self.agents@.take(i + 1).drop_last() =~= self.agents@.take(i as int));
            let a = self.agents[i];
            let far = !a.position.is_within(player, DESPAWN_RADIUS) && a.position.distance_squared(
                player,
            ) != DESPAWN_RADIUS as i128 * DESPAWN_RADIUS as i128;
            if far {
                r.push(a.id);
            }
            i = i + 1;
        }
        assert(self.agents@.take(self.agents@.len() as int) =~= self.agents@);
        r
    }

    /// The position of the first agent with identifier `id`.
    pub fn index_of(&self, id: u64) -> (r: Option<usize>)
        ensures
            r matches Some(i) ==> i < self.agents@.len() && self.agents@[i as int].id == id
                && forall|j: int| 0 <= j < i ==> self.agents@[j].id != id,
            r is None ==> forall|j: int| 0 <= j < self.agents@.len() ==> self.agents@[j].id != id,
    {
        let mut i: usize = 0;
        while i < self.agents.len()
            invariant
                i <= self.agents@.len(),
                forall|j: int| 0 <= j < i ==> self.agents@[j].id != id,
            decreases self.agents@.len() - i,
        {
            if self.agents[i].id == id {
                return Some(i);
            }
            i = i + 1;
        }
        None
    }

    /// Removes the agent at `index` and spawns a replacement at `site` around
    /// `player`, so that the number of agents stays the same. Returns the new
    /// agent's identifier.
    pub fn despawn_and_replace(&mut self, index: usize, player: &Point, site: &SpawnSite) -> (r: u64)
        requires
            old(self).wf(),
            old(self).next_id < u64::MAX,
            index < old(self).agents@.len(),
        ensures
            final(self).wf(),
            r == old(self).next_id,
            final(self).agents@ == old(self).agents@.remove(index as int).push(
                fresh_agent(r, offset_of(*player, site.offset), site.wander),
            ),
            final(self).agents@.len() == old(self).agents@.len(),
            final(self).next_id == old(self).next_id + 1,
            final(self).spawn_timer == old(self).spawn_timer,
            final(self).curve == old(self).curve,
    {
        self.agents.remove(index);
        proof {
            let o = old(self).agents@;
            let s = self.agents@;
            assert(s == o.remove(index as int));
            assert forall|i: int| 0 <= i < s.len() implies #[trigger] s[i] == if i < index {
                o[i]
            } else {
                o[i + 1]
            } by {}
            assert forall|i: int, j: int| 0 <= i < j < s.len() implies #[trigger] s[i].id < #[trigger] s[j].id by {
                let a = if i < index { i } else { i + 1 };
                let b = if j < index { j } else { j + 1 };
                assert(s[i] == o[a] && s[j] == o[b]);
            }
            assert forall|i: int| 0 <= i < s.len() implies #[trigger] s[i].id < self.next_id by {
                let a = if i < index { i } else { i + 1 };
                assert(s[i] == o[a]);
            }
        }
        let origin = player.offset(&site.offset);
        self.spawn(&origin, &site.wander)
    }

    /// Removes every agent beyond the despawn radius and spawns one
    /// replacement per removed agent, at the matching site around `player`,
    /// so that the number of agents stays the same. Returns the identifiers
    /// of the removed agents, in order.
    pub fn despawn_faraway(&mut self, player: &Point, sites: &Vec<SpawnSite>) -> (r: Vec<u64>)
        requires
            old(self).wf(),
            sites@.len() == far_ids(old(self).agents@, *player).len(),
            old(self).next_id + sites@.len() <= u64::MAX,
        ensures
            final(self).wf(),
            r@ == far_ids(old(self).agents@, *player),
            final(self).agents@ == near(old(self).agents@, *player) + spawned(
                old(self).next_id,
                *player,
                sites@,
            ),
            final(self).agents@.len() == old(self).agents@.len(),
            final(self).next_id == old(self).next_id + sites@.len(),
            final(self).spawn_timer == old(self).spawn_timer,
            final(self).curve == old(self).curve,
    {
        let mut close: Vec<Agent> = Vec::new();
        let mut far: Vec<u64> = Vec::new();
        let mut i: usize = 0;
        while i < self.agents.len()
            invariant
                i <= self.agents@.len(),
                self.agents == old(self).agents,
                close@ == near(self.agents@.take(i as int), *player),
                far@ == far_ids(self.agents@.take(i as int), *player),
            decreases self.agents@.len() - i,
        {
            assert(self.agents@.take(i + 1).drop_last() =~= self.agents@.take(i as int));
            let a = self.agents[i];
            let is_far = !a.position.is_within(player, DESPAWN_RADIUS) && a.position.distance_squared(
                player,
            ) != DESPAWN_RADIUS as i128 * DESPAWN_RADIUS as i128;
            if is_far {
                far.push(a.id);
            } else {
                close.push(a);
            }
            i = i + 1;
        }
        assert(self.agents@.take(self.agents@.len() as int) =~= self.agents@);
        proof {
            self.lemma_keep_wf(close@, |a: Agent| !is_far(a, *player));
            lemma_near_and_far(self.agents@, *player);
        }
        self.agents = close;
        self.populate(player, sites);
        far
    }

    /// Removes the agents whose health is at or below zero. Returns their
    /// identifiers, in order.
    pub fn remove_dead(&mut self) -> (r: Vec<u64>)
        requires
            old(self).wf(),
        ensures
            final(self).wf(),
            final(self).agents@ == living(old(self).agents@),
            r@ == dead_ids(old(self).agents@),
            final(self).next_id == old(self).next_id,
            final(self).spawn_timer == old(self).spawn_timer,
            final(self).curve == old(self).curve,
    {
        let mut alive: Vec<Agent> = Vec::new();
        let mut dead: Vec<u64> = Vec::new();
        let mut i: usize = 0;
        while i < self.agents.len()
            invariant
                i <= self.agents@.len(),
                self.agents == old(self).agents,
                alive@ == living(self.agents@.take(i as int)),
                dead@ == dead_ids(self.agents@.take(i as int)),
            decreases self.agents@.len() - i,
        {
            assert(self.agents@.take(i + 1).drop_last() =~= self.agents@.take(i as int));
            let a = self.agents[i];
            if a.hp.0 > 0 {
                alive.push(a);
            } else {
                dead.push(a.id);
            }
            i = i + 1;
        }
        assert(self.agents@.take(self.agents@.len() as int) =~= self.agents@);
        proof {
            self.lemma_keep_wf(alive@, |a: Agent| a.hp.0 > 0);
        }
        self.agents = alive;
        dead
    }

    /// Whether any agent's identifier is among `contacts`.
    pub fn touches_any(&self, contacts: &Vec<u64>) -> (r: bool)
        ensures
            r == exists|k: int| 0 <= k < self.agents@.len() && contacts@.contains(#[trigger] self.agents@[k].id),
    {
        let mut i: usize = 0;
        while i < self.agents.len()
            invariant
                i <= self.agents@.len(),
                forall|k: int| 0 <= k < i ==> !contacts@.contains(#[trigger] self.agents@[k].id),
            decreases self.agents@.len() - i,
        {
            if contains_id(contacts, self.agents[i].id) {
                return true;
            }
            i = i + 1;
        }
        false
    }

    /// Takes one bullet's damage from each agent among `contacts`. Returns
    /// whether any agent was hit.
    pub fn bullet_hit(&mut self, contacts: &Vec<u64>) -> (r: bool)
        requires
            old(self).wf(),
        ensures
            final(self).wf(),
            final(self).agents@ == old(self).agents@.map_values(|a: Agent| shot(a, contacts@)),
            r == exists|k: int| 0 <= k < old(self).agents@.len() && contacts@.contains(#[trigger] old(self).agents@[k].id),
            final(self).next_id == old(self).next_id,
            final(self).spawn_timer == old(self).spawn_timer,
            final(self).curve == old(self).curve,
    {
        let mut hit = false;
        let mut i: usize = 0;
        while i < self.agents.len()
            invariant
                i <= self.agents@.len(),
                self.agents@.len() == old(self).agents@.len(),
                forall|k: int| 0 <= k < i ==> #[trigger] self.agents@[k] == shot(old(self).agents@[k], contacts@),
                forall|k: int| i <= k < self.agents@.len() ==> #[trigger] self.agents@[k] == old(self).agents@[k],
                hit == exists|k: int| 0 <= k < i && contacts@.contains(#[trigger] old(self).agents@[k].id),
                self.next_id == old(self).next_id,
                self.spawn_timer == old(self).spawn_timer,
                self.curve == old(self).curve,
            decreases self.agents@.len() - i,
        {
            let mut a = self.agents[i];
            if contains_id(contacts, a.id) {
                a.hp = Hp(if a.hp.0 >= i32::MIN + BULLET_DAMAGE { a.hp.0 - BULLET_DAMAGE } else { i32::MIN });
                self.agents.set(i, a);
                hit = true;
            }
            i = i + 1;
        }
        assert(self.agents@ =~= old(self).agents@.map_values(|a: Agent| shot(a, contacts@)));
        assert(forall|k: int| 0 <= k < self.agents@.len() ==> #[trigger] self.agents@[k].id == old(self).agents@[k].id);
        hit
    }

    /// Sets the health of each agent among `contacts` to zero. Returns how
    /// many agents that was.
    pub fn blast(&mut self, contacts: &Vec<u64>) -> (r: usize)
        requires
            old(self).wf(),
        ensures
            final(self).wf(),
            final(self).agents@ == old(self).agents@.map_values(|a: Agent| blasted(a, contacts@)),
            r == hit_count(old(self).agents@, contacts@),
            final(self).next_id == old(self).next_id,
            final(self).spawn_timer == old(self).spawn_timer,
            final(self).curve == old(self).curve,
    {
        let mut count: usize = 0;
        let mut i: usize = 0;
        while i < self.agents.len()
            invariant
                i <= self.agents@.len(),
                self.agents@.len() == old(self).agents@.len(),
                forall|k: int| 0 <= k < i ==> #[trigger] self.agents@[k] == blasted(old(self).agents@[k], contacts@),
                forall|k: int| i <= k < self.agents@.len() ==> #[trigger] self.agents@[k] == old(self).agents@[k],
                count == hit_count(old(self).agents@.take(i as int), contacts@),
                count <= i,
                self.next_id == old(self).next_id,
                self.spawn_timer == old(self).spawn_timer,
                self.curve == old(self).curve,
            decreases self.agents@.len() - i,
        {
            assert(old(self).agents@.take(i + 1).drop_last() =~= old(self).agents@.take(i as int));
            let mut a = self.agents[i];
            if contains_id(contacts, a.id) {
                a.hp = Hp(0);
                self.agents.set(i, a);
                count = count + 1;
            }
            i = i + 1;
        }
        assert(old(self).agents@.take(old(self).agents@.len() as int) =~= old(self).agents@);
        assert(self.agents@ =~= old(self).agents@.map_values(|a: Agent| blasted(a, contacts@)));
        assert(forall|k: int| 0 <= k < self.agents@.len() ==> #[trigger] self.agents@[k].id == old(self).agents@[k].id);
        count
    }

    /// Removes every agent and starts the spawn timer over, halfway through
    /// its period, for a new round.
    pub fn clear(&mut self)
        requires
            old(self).wf(),
        ensures
            final(self).wf(),
            final(self).agents@.len() == 0,
            final(self).next_id == old(self).next_id,
            final(self).spawn_timer@ == tick_view(
                fresh_view(old(self).spawn_timer@.duration, old(self).spawn_timer@.repeating),
                old(self).spawn_timer@.duration / 2,
            ),
            final(self).curve == old(self).curve,
    {
        self.agents = Vec::new();
        self.spawn_timer.reset();
        let half = self.spawn_timer.duration_ms() / 2;
        self.spawn_timer.tick(half);
    }
}

} // verus!
