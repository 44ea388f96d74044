//! Weapon targeting and firing.
use vstd::prelude::*;
use crate::crafting::{Inventory, InventoryView};
use crate::geometry::{Point, dist2, is_within};
use crate::timer::{Timer, tick_view, fresh_view};
use crate::zombies::{Agent, Population, contains_id};

verus! {

/// Agents strictly closer than this to the player can be locked on to.
pub const ENGAGEMENT_RADIUS: u32 = 500;

/// At most this many targets are locked at once.
pub const MAX_TARGETS: usize = 5;

/// The time between shots.
pub const RELOAD_MS: u64 = 200;

/// Whether the agent at `i` is within engagement range of the player.
pub open spec fn engageable(agents: Seq<Agent>, player: Point, i: int) -> bool {
    is_within(agents[i].position, player, ENGAGEMENT_RADIUS)
}

/// The square of the distance from the agent at `i` to the player.
pub open spec fn range2(agents: Seq<Agent>, player: Point, i: int) -> int {
    dist2(agents[i].position, player)
}

/// Whether `sel` (positions in `agents`) is a valid lock-on: at most
/// `MAX_TARGETS` distinct engageable agents, ordered from farthest to nearest,
/// and nearer than every engageable agent left out, which is left out only
/// when the list is full.
pub open spec fn is_target_selection(agents: Seq<Agent>, player: Point, sel: Seq<usize>) -> bool {
    &&& sel.len() <= MAX_TARGETS
    &&& forall|k: int| 0 <= k < sel.len() ==> #[trigger] sel[k] < agents.len() && engageable(agents, player, sel[k] as int)
    &&& forall|k1: int, k2: int| 0 <= k1 < k2 < sel.len() ==> #[trigger] sel[k1] != #[trigger] sel[k2]
    &&& forall|k1: int, k2: int| 0 <= k1 <= k2 < sel.len() ==>
        range2(agents, player, #[trigger] sel[k1] as int) >= range2(agents, player, #[trigger] sel[k2] as int)
    &&& forall|j: int| 0 <= j < agents.len() && engageable(agents, player, j) && !sel.contains(j as usize) ==> {
        &&& sel.len() == MAX_TARGETS
        &&& forall|k: int| 0 <= k < sel.len() ==> range2(agents, player, j) >= range2(agents, player, #[trigger] sel[k] as int)
    }
}

fn contains_index(v: &Vec<usize>, x: usize) -> (r: bool)
    ensures
        r == v@.contains(x),
{
    let mut i: usize = 0;
    while i < v.len()
        invariant
            i <= v@.len(),
            forall|k: int| 0 <= k < i ==> v@[k] != x,
        decreases v@.len() - i,
    {
        if v[i] == x {
            return true;
        }
        i = i + 1;
    }
    false
}

/// The agents to lock on to: the nearest `MAX_TARGETS` engageable agents,
/// farthest first, so that the nearest comes last.
pub fn target_indices(player: &Point, agents: &Vec<Agent>) -> (r: Vec<usize>)
    ensures
        is_target_selection(agents@, *player, r@),
{
    let n = agents.len();
    let mut chosen: Vec<usize> = Vec::new();
    while chosen.len() < MAX_TARGETS
        invariant
            n == agents@.len(),
            chosen@.len() <= MAX_TARGETS,
            forall|k: int| 0 <= k < chosen@.len() ==> #[trigger] chosen@[k] < n && engageable(agents@, *player, chosen@[k] as int),
            forall|k1: int, k2: int| 0 <= k1 < k2 < chosen@.len() ==> #[trigger] chosen@[k1] != #[trigger] chosen@[k2],
            forall|k1: int, k2: int| 0 <= k1 <= k2 < chosen@.len() ==>
                range2(agents@, *player, #[trigger] chosen@[k1] as int) <= range2(agents@, *player, #[trigger] chosen@[k2] as int),
            forall|j: int, k: int| #![trigger engageable(agents@, *player, j), chosen@[k]]
                0 <= j < n && engageable(agents@, *player, j) && !chosen@.contains(j as usize) && 0 <= k < chosen@.len() ==>
                range2(agents@, *player, j) >= range2(agents@, *player, chosen@[k] as int),
        ensures
            chosen@.len() <= MAX_TARGETS,
            forall|k: int| 0 <= k < chosen@.len() ==> #[trigger] chosen@[k] < n && engageable(agents@, *player, chosen@[k] as int),
            forall|k1: int, k2: int| 0 <= k1 < k2 < chosen@.len() ==> #[trigger] chosen@[k1] != #[trigger] chosen@[k2],
            forall|k1: int, k2: int| 0 <= k1 <= k2 < chosen@.len() ==>
                range2(agents@, *player, #[trigger] chosen@[k1] as int) <= range2(agents@, *player, #[trigger] chosen@[k2] as int),
            forall|j: int, k: int| #![trigger engageable(agents@, *player, j), chosen@[k]]
                0 <= j < n && engageable(agents@, *player, j) && !chosen@.contains(j as usize) && 0 <= k < chosen@.len() ==>
                range2(agents@, *player, j) >= range2(agents@, *player, chosen@[k] as int),
            chosen@.len() < MAX_TARGETS ==> forall|j: int| 0 <= j < n && engageable(agents@, *player, j) ==> chosen@.contains(j as usize),
        decreases MAX_TARGETS - chosen@.len(),
    {
        let mut best: Option<usize> = None;
        let mut best_d: i128 = 0;
        let mut j: usize = 0;
        while j < n
            invariant
                n == agents@.len(),
                j <= n,
                best is None ==> forall|i: int| 0 <= i < j && engageable(agents@, *player, i) ==> chosen@.contains(i as usize),
                best matches Some(b) ==> {
                    &&& b < j
                    &&& engageable(agents@, *player, b as int)
                    &&& !chosen@.contains(b)
                    &&& best_d == range2(agents@, *player, b as int)
                    &&& forall|i: int| 0 <= i < j && engageable(agents@, *player, i) && !chosen@.contains(i as usize) ==>
                        best_d <= #[trigger] range2(agents@, *player, i)
                },
            decreases n - j,
        {
            let a = agents[j];
            if a.position.is_within(player, ENGAGEMENT_RADIUS) && !contains_index(&chosen, j) {
                let d = a.position.distance_squared(player);
                let better = match best {
                    None => true,
                    Some(_) => d < best_d,
                };
                if better {
                    best = Some(j);
                    best_d = d;
                }
            }
            j = j + 1;
        }
        match best {
            None => {
                break;
            },
            Some(b) => {
                let ghost before = chosen@;
                chosen.push(b);
                assert forall|x: usize| before.contains(x) implies chosen@.contains(x) by {
                    let k = choose|k: int| 0 <= k < before.len() && before[k] == x;
                    assert(chosen@[k] == x);
                }
                assert forall|x: usize| chosen@.contains(x) && x != b implies before.contains(x) by {
                    let k = choose|k: int| 0 <= k < chosen@.len() && chosen@[k] == x;
                    assert(before[k] == x);
                }
                assert(chosen@[before.len() as int] == b);
            },
        }
    }
    let mut r: Vec<usize> = Vec::new();
    let m = chosen.len();
    let mut i: usize = 0;
    while i < m
        invariant
            m == chosen@.len(),
            i <= m,
            r@.len() == i,
            forall|k: int| 0 <= k < i ==> #[trigger] r@[k] == chosen@[m - 1 - k],
        decreases m - i,
    {
        r.push(chosen[m - 1 - i]);
        i = i + 1;
    }
    proof {
        assert forall|k1: int, k2: int| 0 <= k1 < k2 < r@.len() implies #[trigger] r@[k1] != #[trigger] r@[k2] by {
            assert(r@[k1] == chosen@[m - 1 - k1]);
            assert(r@[k2] == chosen@[m - 1 - k2]);
        }
        assert forall|k1: int, k2: int| 0 <= k1 <= k2 < r@.len() implies
            range2(agents@, *player, #[trigger] r@[k1] as int) >= range2(agents@, *player, #[trigger] r@[k2] as int) by {
            assert(r@[k1] == chosen@[m - 1 - k1]);
            assert(r@[k2] == chosen@[m - 1 - k2]);
        }
        assert forall|x: usize| chosen@.contains(x) implies r@.contains(x) by {
            let k = choose|k: int| 0 <= k < chosen@.len() && chosen@[k] == x;
            assert(r@[m - 1 - k] == x);
        }
        assert forall|x: usize| r@.contains(x) implies chosen@.contains(x) by {
            let k = choose|k: int| 0 <= k < r@.len() && r@[k] == x;
            assert(chosen@[m - 1 - k] == x);
        }
        assert forall|j: int| 0 <= j < agents@.len() && engageable(agents@, *player, j) && !r@.contains(j as usize) implies {
            &&& r@.len() == MAX_TARGETS
            &&& forall|k: int| 0 <= k < r@.len() ==> range2(agents@, *player, j) >= range2(agents@, *player, #[trigger] r@[k] as int)
        } by {
            assert(!chosen@.contains(j as usize));
            assert forall|k: int| 0 <= k < r@.len() implies range2(agents@, *player, j) >= range2(agents@, *player, #[trigger] r@[k] as int) by {
                assert(r@[k] == chosen@[m - 1 - k]);
            }
        }
    }
    r
}

/// The identifiers of `ids` that are not in `kept`, in order.
pub open spec fn dropped(ids: Seq<u64>, kept: Seq<u64>) -> Seq<u64>
    decreases ids.len(),
{
    if ids.len() == 0 {
        Seq::empty()
    } else if kept.contains(ids.last()) {
        dropped(ids.drop_last(), kept)
    } else {
        dropped(ids.drop_last(), kept).push(ids.last())
    }
}

/// The identifiers of the agents at the positions `sel`.
pub open spec fn ids_at(agents: Seq<Agent>, sel: Seq<usize>) -> Seq<u64> {
    sel.map_values(|i: usize| agents[i as int].id)
}

/// The player's weapon: the locked targets, nearest last, and the reload timer.
pub struct PlayerWeapon {
    pub targets: Vec<u64>,
    pub reload_timer: Timer,
}

impl Default for PlayerWeapon {
    /// No targets, and a reload timer that has not run.
    fn default() -> (r: PlayerWeapon)
        ensures
            r.targets@.len() == 0,
            r.reload_timer@ == fresh_view(RELOAD_MS as nat, false),
    {
        PlayerWeapon { targets: Vec::new(), reload_timer: Timer::new(RELOAD_MS, false) }
    }
}

impl PlayerWeapon {
    /// Locks on to the nearest engageable agents, nearest last. Returns the
    /// previously locked targets that are no longer locked, in order.
    pub fn retarget(&mut self, player: &Point, population: &Population) -> (r: Vec<u64>)
        requires
            population.wf(),
        ensures
            forall|k1: int, k2: int|
                0 <= k1 < k2 < final(self).targets@.len() ==> #[trigger] final(self).targets@[k1]
                    != #[trigger] final(self).targets@[k2],
            exists|sel: Seq<usize>|
                is_target_selection(population.agents@, *player, sel) && final(self).targets@
                    == ids_at(population.agents@, sel),
            r@ == dropped(old(self).targets@, final(self).targets@),
            final(self).reload_timer == old(self).reload_timer,
    {
        let sel = target_indices(player, &population.agents);
        let mut ids: Vec<u64> = Vec::new();
        let mut i: usize = 0;
        while i < sel.len()
            invariant
                i <= sel@.len(),
                is_target_selection(population.agents@, *player, sel@),
                ids@ == ids_at(population.agents@, sel@.take(i as int)),
            decreases sel@.len() - i,
        {
            assert(sel@.take(i + 1) =~= sel@.take(i as int).push(sel@[i as int]));
            ids.push(population.agents[sel[i]].id);
            i = i + 1;
        }
        assert(sel@.take(sel@.len() as int) =~= sel@);
        let mut gone: Vec<u64> = Vec::new();
        let mut k: usize = 0;
        while k < self.targets.len()
            invariant
                k <= self.targets@.len(),
                gone@ == dropped(self.targets@.take(k as int), ids@),
            decreases self.targets@.len() - k,
        {
            assert(self.targets@.take(k + 1).drop_last() =~= self.targets@.take(k as int));
            let t = self.targets[k];
            if !contains_id(&ids, t) {
                gone.push(t);
            }
            k = k + 1;
        }
        assert(self.targets@.take(self.targets@.len() as int) =~= self.targets@);
        proof {
            let a = population.agents@;
            assert forall|k1: int, k2: int| 0 <= k1 < k2 < ids@.len() implies #[trigger] ids@[k1] != #[trigger] ids@[k2] by {
                let i1 = sel@[k1] as int;
                let i2 = sel@[k2] as int;
                assert(ids@[k1] == a[i1].id && ids@[k2] == a[i2].id);
                assert(i1 != i2);
                if i1 < i2 {
                    assert(a[i1].id < a[i2].id);
                } else {
                    assert(a[i2].id < a[i1].id);
                }
            }
        }
        self.targets = ids;
        gone
    }

    /// Advances the reload timer by `delta_ms` and, when fire is pressed, the
    /// weapon has reloaded, ammunition is left and a target is locked, takes
    /// the nearest target (the last). If that agent is still alive, spends one
    /// round on it, starts the reload timer over and returns its position; a
    /// target that is gone is dropped without spending a round.
    pub fn try_fire(
        &mut self,
        inventory: &mut Inventory,
        fire_pressed: bool,
        delta_ms: u64,
        population: &Population,
    ) -> (r: Option<Point>)
        ensures
            ({
                let ticked = tick_view(old(self).reload_timer@, delta_ms as nat);
                let ready = fire_pressed && ticked.finished && old(inventory)@.ammo > 0 && old(
                    self,
                ).targets@.len() > 0;
                let agents = population.agents@;
                &&& !ready ==> {
                    &&& r is None
                    &&& *final(inventory) == *old(inventory)
                    &&& final(self).targets@ == old(self).targets@
                    &&& final(self).reload_timer@ == ticked
                }
                &&& ready ==> {
                    let id = old(self).targets@.last();
                    &&& final(self).targets@ == old(self).targets@.drop_last()
                    &&& (exists|i: int| 0 <= i < agents.len() && agents[i].id == id) <==> r is Some
                    &&& r matches Some(p) ==> {
                        &&& exists|i: int|
                            0 <= i < agents.len() && agents[i].id == id && agents[i].position == p
                                && forall|j: int| 0 <= j < i ==> agents[j].id != id
                        &&& final(inventory)@ == (InventoryView {
                            ammo: (old(inventory)@.ammo - 1) as nat,
                            ..old(inventory)@
                        })
                        &&& final(self).reload_timer@ == fresh_view(ticked.duration, ticked.repeating)
                    }
                    &&& r is None ==> {
                        &&& *final(inventory) == *old(inventory)
                        &&& final(self).reload_timer@ == ticked
                    }
                }
            }),
    {
        self.reload_timer.tick(delta_ms);
        if !(fire_pressed && self.reload_timer.finished() && inventory.ammo_count() > 0
            && self.targets.len() > 0) {
            return None;
        }
        let id = match self.targets.pop() {
            Some(id) => id,
            None => {
                return None;
            },
        };
        match population.index_of(id) {
            Some(i) => {
                inventory.use_ammo(1);
                let p = population.agents[i].position;
                self.reload_timer.reset();
                Some(p)
            },
            None => None,
        }
    }
}

} // verus!
