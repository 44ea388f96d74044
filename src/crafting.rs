//! Parts, craftable items, their recipes, and the player's inventory.
use vstd::prelude::*;
use rand::seq::SliceRandom;

verus! {

/// A raw crafting material.
#[derive(Clone, Copy, Debug, PartialEq, Eq, Structural, Hash, PartialOrd, Ord)]
pub enum Part {
    Battery,
    Electronics,
    Buzzer,
    Explosive,
    Motor,
}

/// The relative likelihood of a part in loot.
pub open spec fn loot_weight_of(p: Part) -> nat {
    match p {
        Part::Battery | Part::Electronics => 7,
        _ => 5,
    }
}

/// The parts that loot can hold, in declaration order.
pub open spec fn lootable_parts() -> Seq<Part> {
    seq![Part::Battery, Part::Electronics, Part::Buzzer, Part::Explosive]
}

/// Every part, in declaration order.
pub open spec fn every_part() -> Seq<Part> {
    seq![Part::Battery, Part::Electronics, Part::Buzzer, Part::Explosive, Part::Motor]
}

/// Relies on rand's `SliceRandom::choose_weighted` (with `thread_rng`): it returns
/// a reference to one element of the slice, and fails only on an empty slice or
/// a zero total weight.
#[verifier::external_body]
fn choose_by_loot_weight(parts: &[Part]) -> (r: Part)
    requires
        0 < parts@.len() <= 1_000_000,
    ensures
        parts@.contains(r),
{
    *parts.choose_weighted(&mut rand::thread_rng(), Part::loot_weight).unwrap()
}

impl Part {
    /// The parts that loot can hold.
    pub fn all() -> (r: Vec<Part>)
        ensures
            r@ == lootable_parts(),
    {
        let r = vec![Part::Battery, Part::Electronics, Part::Buzzer, Part::Explosive];
        assert(r@ =~= lootable_parts());
        r
    }

    /// A lootable part, drawn with probability proportional to its loot weight.
    pub fn random() -> (r: Part)
        ensures
            lootable_parts().contains(r),
            r != Part::Motor,
    {
        let parts = Part::all();
        let r = choose_by_loot_weight(parts.as_slice());
        r
    }

    /// The relative likelihood of this part in loot.
    pub fn loot_weight(&self) -> (r: u32)
        ensures
            r == loot_weight_of(*self),
    {
        match self {
            Part::Battery | Part::Electronics => 7,
            _ => 5,
        }
    }
}

/// A device that can be crafted from parts.
#[derive(Clone, Copy, Debug, PartialEq, Eq, Structural, Hash, PartialOrd, Ord)]
pub enum Item {
    ProximityBomb,
    Alarm,
    Drone,
}

/// The parts that one item takes, with repetition.
pub open spec fn recipe(item: Item) -> Seq<Part> {
    match item {
        Item::Alarm => seq![Part::Electronics, Part::Battery, Part::Buzzer],
        Item::ProximityBomb => seq![Part::Electronics, Part::Battery, Part::Explosive],
        Item::Drone => seq![Part::Electronics, Part::Battery, Part::Motor],
    }
}

/// How many times `p` occurs in `s`.
pub open spec fn count_in(s: Seq<Part>, p: Part) -> nat
    decreases s.len(),
{
    if s.len() == 0 {
        0
    } else {
        count_in(s.drop_last(), p) + if s.last() == p {
            1nat
        } else {
            0nat
        }
    }
}

/// A prefix holds a part no more often than the whole sequence.
proof fn lemma_count_in_prefix(s: Seq<Part>, j: int, p: Part)
    requires
        0 <= j <= s.len(),
    ensures
        count_in(s.take(j), p) <= count_in(s, p),
    decreases s.len(),
{
    if j == s.len() {
        assert(s.take(j) =~= s);
    } else {
        assert(s.drop_last().take(j) =~= s.take(j));
        lemma_count_in_prefix(s.drop_last(), j, p);
    }
}

/// How many of each part one item takes.
pub open spec fn requirement(item: Item) -> Map<Part, nat> {
    Map::total(|p: Part| count_in(recipe(item), p))
}

/// The name shown for an item.
pub open spec fn display_name(item: Item) -> Seq<char> {
    match item {
        Item::Alarm => "Alarm"@,
        Item::ProximityBomb => "Proximity Bomb"@,
        Item::Drone => "Drone"@,
    }
}

/// Every item, in declaration order.
pub open spec fn every_item() -> Seq<Item> {
    seq![Item::ProximityBomb, Item::Alarm, Item::Drone]
}

/// Whether an item has art and a scene to place.
pub open spec fn has_assets(item: Item) -> bool {
    item != Item::Drone
}

impl std::str::FromStr for Item {
    type Err = ();

    fn from_str(s: &str) -> Result<Item, ()> {
        match Item::from_name(s) {
            Some(item) => Ok(item),
            None => Err(()),
        }
    }
}

/// The handles of the items' textures and placeable scenes.
pub struct CraftingAssets<H> {
    pub proximity_bomb: H,
    pub proximity_bomb_scene: H,
    pub alarm: H,
    pub alarm_scene: H,
}

impl Item {
    /// The items offered for crafting, in menu order.
    pub fn all() -> (r: Vec<Item>)
        ensures
            r@ == seq![Item::ProximityBomb, Item::Alarm],
    {
        let r = vec![Item::ProximityBomb, Item::Alarm];
        assert(r@ =~= seq![Item::ProximityBomb, Item::Alarm]);
        r
    }

    /// The item whose identifier is `name`.
    pub fn from_name(name: &str) -> (r: Option<Item>)
        ensures
            r == Some(Item::Alarm) <==> name@ == "Alarm"@,
            r == Some(Item::ProximityBomb) <==> name@ == "ProximityBomb"@,
            r == Some(Item::Drone) <==> name@ == "Drone"@,
    {
        proof {
            reveal_strlit("Alarm");
            reveal_strlit("ProximityBomb");
            reveal_strlit("Drone");
            assert("Alarm"@.len() != "ProximityBomb"@.len());
            assert("Drone"@.len() != "ProximityBomb"@.len());
            assert("Alarm"@[0] != "Drone"@[0]);
        }
        let s = name.to_owned();
        if s == "Alarm".to_owned() {
            Some(Item::Alarm)
        } else if s == "ProximityBomb".to_owned() {
            Some(Item::ProximityBomb)
        } else if s == "Drone".to_owned() {
            Some(Item::Drone)
        } else {
            None
        }
    }

    /// The name shown for this item.
    pub fn as_str(&self) -> (r: &'static str)
        ensures
            r@ == display_name(*self),
    {
        match self {
            Item::Alarm => "Alarm",
            Item::ProximityBomb => "Proximity Bomb",
            Item::Drone => "Drone",
        }
    }

    /// The handle of this item's texture.
    pub fn as_texture_handle<'a, H>(&self, assets: &'a CraftingAssets<H>) -> (r: &'a H)
        requires
            has_assets(*self),
        ensures
            *self == Item::ProximityBomb ==> r == &assets.proximity_bomb,
            *self == Item::Alarm ==> r == &assets.alarm,
    {
        match self {
            Item::ProximityBomb => &assets.proximity_bomb,
            _ => &assets.alarm,
        }
    }

    /// The handle of the scene that placing this item spawns.
    pub fn as_scene_handle<'a, H>(&self, assets: &'a CraftingAssets<H>) -> (r: &'a H)
        requires
            has_assets(*self),
        ensures
            *self == Item::ProximityBomb ==> r == &assets.proximity_bomb_scene,
            *self == Item::Alarm ==> r == &assets.alarm_scene,
    {
        match self {
            Item::ProximityBomb => &assets.proximity_bomb_scene,
            _ => &assets.alarm_scene,
        }
    }

    /// The parts this item takes, with repetition.
    pub fn ingredients(&self) -> (r: Vec<Part>)
        ensures
            r@ == recipe(*self),
    {
        let mut r: Vec<Part> = Vec::new();
        r.push(Part::Electronics);
        r.push(Part::Battery);
        match self {
            Item::Alarm => r.push(Part::Buzzer),
            Item::ProximityBomb => r.push(Part::Explosive),
            Item::Drone => r.push(Part::Motor),
        }
        assert(r@ =~= recipe(*self));
        r
    }
}

/// Held counts of each part.
#[derive(Clone, Copy, Debug, PartialEq, Eq, Structural)]
struct PartCounts {
    battery: u32,
    electronics: u32,
    buzzer: u32,
    explosive: u32,
    motor: u32,
}

impl PartCounts {
    spec fn count(self, p: Part) -> nat {
        match p {
            Part::Battery => self.battery as nat,
            Part::Electronics => self.electronics as nat,
            Part::Buzzer => self.buzzer as nat,
            Part::Explosive => self.explosive as nat,
            Part::Motor => self.motor as nat,
        }
    }

    spec fn as_map(self) -> Map<Part, nat> {
        Map::total(|p: Part| self.count(p))
    }

    fn zero() -> (r: PartCounts)
        ensures
            forall|p: Part| r.count(p) == 0,
    {
        PartCounts { battery: 0, electronics: 0, buzzer: 0, explosive: 0, motor: 0 }
    }

    fn get(&self, p: Part) -> (r: u32)
        ensures
            r == self.count(p),
    {
        match p {
            Part::Battery => self.battery,
            Part::Electronics => self.electronics,
            Part::Buzzer => self.buzzer,
            Part::Explosive => self.explosive,
            Part::Motor => self.motor,
        }
    }

    fn set(&mut self, p: Part, v: u32)
        ensures
            forall|q: Part| #[trigger]
                final(self).count(q) == if q == p {
                    v as nat
                } else {
                    old(self).count(q)
                },
    {
        match p {
            Part::Battery => self.battery = v,
            Part::Electronics => self.electronics = v,
            Part::Buzzer => self.buzzer = v,
            Part::Explosive => self.explosive = v,
            Part::Motor => self.motor = v,
        }
    }

    /// Whether every count here is at least the one in `need`.
    fn covers(&self, need: &PartCounts) -> (r: bool)
        ensures
            r == forall|p: Part| need.count(p) <= #[trigger] self.count(p),
    {
        let r = need.battery <= self.battery && need.electronics <= self.electronics
            && need.buzzer <= self.buzzer && need.explosive <= self.explosive && need.motor
            <= self.motor;
        proof {
            if !r {
                if need.battery > self.battery {
                    assert(need.count(Part::Battery) > self.count(Part::Battery));
                } else if need.electronics > self.electronics {
                    assert(need.count(Part::Electronics) > self.count(Part::Electronics));
                } else if need.buzzer > self.buzzer {
                    assert(need.count(Part::Buzzer) > self.count(Part::Buzzer));
                } else if need.explosive > self.explosive {
                    assert(need.count(Part::Explosive) > self.count(Part::Explosive));
                } else {
                    assert(need.count(Part::Motor) > self.count(Part::Motor));
                }
            }
        }
        r
    }

    /// Subtracts `need` from every count.
    fn take(&mut self, need: &PartCounts)
        requires
            forall|p: Part| need.count(p) <= #[trigger] old(self).count(p),
        ensures
            forall|p: Part| #[trigger]
                final(self).count(p) == old(self).count(p) - need.count(p),
    {
        assert(need.count(Part::Battery) <= self.count(Part::Battery));
        assert(need.count(Part::Electronics) <= self.count(Part::Electronics));
        assert(need.count(Part::Buzzer) <= self.count(Part::Buzzer));
        assert(need.count(Part::Explosive) <= self.count(Part::Explosive));
        assert(need.count(Part::Motor) <= self.count(Part::Motor));
        self.battery = self.battery - need.battery;
        self.electronics = self.electronics - need.electronics;
        self.buzzer = self.buzzer - need.buzzer;
        self.explosive = self.explosive - need.explosive;
        self.motor = self.motor - need.motor;
    }
}

/// Held counts of each item.
#[derive(Clone, Copy, Debug, PartialEq, Eq, Structural)]
struct ItemCounts {
    proximity_bomb: u32,
    alarm: u32,
    drone: u32,
}

impl ItemCounts {
    spec fn count(self, i: Item) -> nat {
        match i {
            Item::ProximityBomb => self.proximity_bomb as nat,
            Item::Alarm => self.alarm as nat,
            Item::Drone => self.drone as nat,
        }
    }

    spec fn as_map(self) -> Map<Item, nat> {
        Map::total(|i: Item| self.count(i))
    }

    fn get(&self, i: Item) -> (r: u32)
        ensures
            r == self.count(i),
    {
        match i {
            Item::ProximityBomb => self.proximity_bomb,
            Item::Alarm => self.alarm,
            Item::Drone => self.drone,
        }
    }

    fn set(&mut self, i: Item, v: u32)
        ensures
            forall|j: Item| #[trigger]
                final(self).count(j) == if j == i {
                    v as nat
                } else {
                    old(self).count(j)
                },
    {
        match i {
            Item::ProximityBomb => self.proximity_bomb = v,
            Item::Alarm => self.alarm = v,
            Item::Drone => self.drone = v,
        }
    }
}

/// The aggregated requirement of a list of parts.
fn tally(parts: &Vec<Part>) -> (r: PartCounts)
    requires
        parts@.len() <= u32::MAX,
    ensures
        forall|p: Part| #[trigger] r.count(p) == count_in(parts@, p),
{
    let mut r = PartCounts::zero();
    let mut i: usize = 0;
    while i < parts.len()
        invariant
            i <= parts@.len() <= u32::MAX,
            forall|p: Part| #[trigger] r.count(p) == count_in(parts@.take(i as int), p),
            forall|p: Part| #[trigger] r.count(p) <= i,
        decreases parts@.len() - i,
    {
        let part = parts[i];
        proof {
            assert forall|p: Part| #[trigger]
                count_in(parts@.take(i + 1), p) == count_in(parts@.take(i as int), p) + if part
                    == p {
                    1nat
                } else {
                    0nat
                } by {
                assert(parts@.take(i + 1).drop_last() =~= parts@.take(i as int));
            }
        }
        let c = r.get(part);
        r.set(part, c + 1);
        i = i + 1;
    }
    assert(parts@.take(parts@.len() as int) =~= parts@);
    r
}

/// What an [`Inventory`] holds, as mathematical values.
pub struct InventoryView {
    pub parts: Map<Part, nat>,
    pub items: Map<Item, nat>,
    pub ammo: nat,
}

impl InventoryView {
    /// Whether every part that `item` takes is held at least as often as it
    /// takes it.
    pub open spec fn can_craft(self, item: Item) -> bool {
        forall|p: Part| requirement(item)[p] <= #[trigger] self.parts[p]
    }

    /// The inventory after crafting `item` from it.
    pub open spec fn crafted(self, item: Item) -> InventoryView {
        InventoryView {
            parts: Map::total(|p: Part| (self.parts[p] - requirement(item)[p]) as nat),
            items: self.items.insert(item, self.items[item] + 1),
            ammo: self.ammo,
        }
    }

    /// Whether `craft(item)` succeeds, and the inventory that it leaves.
    pub open spec fn craft_outcome(self, item: Item) -> (bool, InventoryView) {
        if self.can_craft(item) {
            (true, self.crafted(item))
        } else {
            (false, self)
        }
    }

    /// The inventory after using one `item`.
    pub open spec fn used(self, item: Item) -> InventoryView {
        InventoryView { items: self.items.insert(item, (self.items[item] - 1) as nat), ..self }
    }

    /// The held items, in declaration order.
    pub open spec fn held_items(self) -> Seq<Item> {
        every_item().filter(|i: Item| self.items[i] > 0)
    }

    proof fn lemma_held_positive(self, item: Item)
        requires
            self.held_items().contains(item),
        ensures
            self.items[item] > 0,
    {
        every_item().lemma_filter_contains_rev(|i: Item| self.items[i] > 0, item);
    }
}

/// The part, besides electronics and a battery, that an item takes.
pub open spec fn signature_part(item: Item) -> Part {
    match item {
        Item::Alarm => Part::Buzzer,
        Item::ProximityBomb => Part::Explosive,
        Item::Drone => Part::Motor,
    }
}

/// The parts that an item takes, each once, in declaration order.
pub open spec fn recipe_parts(item: Item) -> Seq<Part> {
    seq![Part::Battery, Part::Electronics, signature_part(item)]
}

/// Every recipe takes one electronics part, one battery and one part of its own.
pub proof fn lemma_requirement(item: Item, p: Part)
    ensures
        requirement(item)[p] == if p == Part::Electronics || p == Part::Battery || p
            == signature_part(item) {
            1nat
        } else {
            0nat
        },
{
    let s = recipe(item);
    assert(s.drop_last() =~= seq![Part::Electronics, Part::Battery]);
    assert(s.drop_last().drop_last() =~= seq![Part::Electronics]);
    assert(s.drop_last().drop_last().drop_last() =~= Seq::<Part>::empty());
    reveal_with_fuel(count_in, 4);
}

/// Crafting succeeds exactly when the inventory can craft the item. A
/// successful craft lowers each part by exactly what the recipe takes, so that
/// parts the recipe does not take keep their counts, adds one of the item, and
/// changes no other item and no ammunition.
pub proof fn lemma_craft_succeeds_iff_can_craft(inv: InventoryView, item: Item)
    ensures
        inv.craft_outcome(item).0 == inv.can_craft(item),
        inv.can_craft(item) ==> {
            let after = inv.craft_outcome(item).1;
            &&& forall|p: Part| #[trigger] after.parts[p] + requirement(item)[p] == inv.parts[p]
            &&& forall|p: Part| requirement(item)[p] == 0 ==> #[trigger] after.parts[p] == inv.parts[p]
            &&& after.items[item] == inv.items[item] + 1
            &&& forall|i: Item| i != item ==> #[trigger] after.items[i] == inv.items[i]
            &&& after.ammo == inv.ammo
        },
{
    if inv.can_craft(item) {
        let after = inv.craft_outcome(item).1;
        assert forall|p: Part| #[trigger] after.parts[p] + requirement(item)[p] == inv.parts[p] by {
            assert(requirement(item)[p] <= inv.parts[p]);
        }
    }
}

/// A craft that the inventory cannot afford leaves every count as it was.
pub proof fn lemma_failed_craft_changes_nothing(inv: InventoryView, item: Item)
    requires
        !inv.can_craft(item),
    ensures
        inv.craft_outcome(item) == (false, inv),
{
}

/// The player's parts, crafted items and ammunition.
#[derive(Clone, Copy, Debug, PartialEq, Eq)]
pub struct Inventory {
    parts: PartCounts,
    items: ItemCounts,
    ammo_count: u32,
}

impl View for Inventory {
    type V = InventoryView;

    closed spec fn view(&self) -> InventoryView {
        InventoryView { parts: self.parts.as_map(), items: self.items.as_map(), ammo: self.ammo_count as nat }
    }
}

impl Default for Inventory {
    fn default() -> (r: Inventory)
        ensures
            forall|p: Part| #[trigger] r@.parts[p] == 0,
            forall|i: Item| #[trigger] r@.items[i] == 0,
            r@.ammo == 0,
    {
        Inventory::new()
    }
}

impl Inventory {
    /// An empty inventory.
    pub fn new() -> (r: Inventory)
        ensures
            forall|p: Part| #[trigger] r@.parts[p] == 0,
            forall|i: Item| #[trigger] r@.items[i] == 0,
            r@.ammo == 0,
    {
        Inventory {
            parts: PartCounts::zero(),
            items: ItemCounts { proximity_bomb: 0, alarm: 0, drone: 0 },
            ammo_count: 0,
        }
    }

    /// Whether every part that `item` takes is held often enough.
    pub fn can_craft(&self, item: Item) -> (r: bool)
        ensures
            r == self@.can_craft(item),
    {
        let need = tally(&item.ingredients());
        let r = self.parts.covers(&need);
        proof {
            if r {
                assert forall|p: Part| requirement(item)[p] <= #[trigger] self@.parts[p] by {
                    assert(need.count(p) <= self.parts.count(p));
                }
            } else {
                let p = choose|p: Part| !(need.count(p) <= #[trigger] self.parts.count(p));
                assert(!(requirement(item)[p] <= self@.parts[p]));
            }
        }
        r
    }

    /// Crafts one `item` if every part it takes is held, taking those parts;
    /// otherwise changes nothing. Returns whether it crafted.
    pub fn craft(&mut self, item: Item) -> (r: bool)
        requires
            old(self)@.items[item] < u32::MAX,
        ensures
            (r, final(self)@) == old(self)@.craft_outcome(item),
            !r ==> *final(self) == *old(self),
    {
        if !self.can_craft(item) {
            return false;
        }
        let need = tally(&item.ingredients());
        proof {
            assert forall|p: Part| need.count(p) <= #[trigger] self.parts.count(p) by {
                assert(requirement(item)[p] <= self@.parts[p]);
            }
        }
        self.parts.take(&need);
        let c = self.items.get(item);
        self.items.set(item, c + 1);
        proof {
            assert(self@.parts =~= old(self)@.crafted(item).parts);
            assert(self@.items =~= old(self)@.crafted(item).items);
        }
        true
    }

    /// Adds one `part`.
    pub fn add_part(&mut self, part: Part)
        requires
            old(self)@.parts[part] < u32::MAX,
        ensures
            final(self)@ == (InventoryView {
                parts: old(self)@.parts.insert(part, old(self)@.parts[part] + 1),
                ..old(self)@
            }),
    {
        let c = self.parts.get(part);
        self.parts.set(part, c + 1);
        proof {
            assert(self@.parts =~= old(self)@.parts.insert(part, old(self)@.parts[part] + 1));
            assert(self@.items =~= old(self)@.items);
        }
    }

    /// Adds each of `parts`.
    pub fn add_parts(&mut self, parts: &[Part])
        requires
            forall|p: Part| old(self)@.parts[p] + count_in(parts@, p) <= u32::MAX,
        ensures
            final(self)@ == (InventoryView {
                parts: Map::total(|p: Part| old(self)@.parts[p] + count_in(parts@, p)),
                ..old(self)@
            }),
    {
        let mut i: usize = 0;
        while i < parts.len()
            invariant
                i <= parts@.len(),
                forall|p: Part| old(self)@.parts[p] + count_in(parts@, p) <= u32::MAX,
                forall|p: Part| #[trigger]
                    self@.parts[p] == old(self)@.parts[p] + count_in(parts@.take(i as int), p),
                self@.items == old(self)@.items,
                self@.ammo == old(self)@.ammo,
            decreases parts@.len() - i,
        {
            let part = parts[i];
            proof {
                assert forall|p: Part| #[trigger]
                    count_in(parts@.take(i + 1), p) == count_in(parts@.take(i as int), p)
                        + if part == p {
                        1nat
                    } else {
                        0nat
                    } by {
                    assert(parts@.take(i + 1).drop_last() =~= parts@.take(i as int));
                }
                lemma_count_in_prefix(parts@, i + 1, part);
                assert(old(self)@.parts[part] + count_in(parts@, part) <= u32::MAX);
            }
            self.add_part(part);
            i = i + 1;
        }
        proof {
            assert(parts@.take(parts@.len() as int) =~= parts@);
            assert(self@.parts =~= Map::total(
                |p: Part| old(self)@.parts[p] + count_in(parts@, p),
            ));
        }
    }

    /// Every item with its held count, in declaration order.
    pub fn get_items(&self) -> (r: Vec<(Item, u32)>)
        ensures
            r@.len() == 3,
            forall|k: int|
                0 <= k < 3 ==> #[trigger] r@[k] == (every_item()[k], self@.items[every_item()[k]] as u32),
    {
        let mut r: Vec<(Item, u32)> = Vec::new();
        r.push((Item::ProximityBomb, self.items.proximity_bomb));
        r.push((Item::Alarm, self.items.alarm));
        r.push((Item::Drone, self.items.drone));
        r
    }

    /// The held items (count above zero), in declaration order.
    pub fn held_items(&self) -> (r: Vec<Item>)
        ensures
            r@ == self@.held_items(),
    {
        let mut r: Vec<Item> = Vec::new();
        if self.items.proximity_bomb > 0 {
            r.push(Item::ProximityBomb);
        }
        if self.items.alarm > 0 {
            r.push(Item::Alarm);
        }
        if self.items.drone > 0 {
            r.push(Item::Drone);
        }
        proof {
            reveal_with_fuel(Seq::filter, 4);
            assert(every_item().drop_last() =~= seq![Item::ProximityBomb, Item::Alarm]);
            assert(every_item().drop_last().drop_last() =~= seq![Item::ProximityBomb]);
            assert(every_item().drop_last().drop_last().drop_last() =~= Seq::<Item>::empty());
            assert(r@ =~= self@.held_items());
        }
        r
    }

    /// Uses one `item` if any is held. Returns whether one was used.
    pub fn use_item(&mut self, item: &Item) -> (r: bool)
        ensures
            r == (old(self)@.items[*item] > 0),
            r ==> final(self)@ == old(self)@.used(*item),
            !r ==> *final(self) == *old(self),
    {
        let c = self.items.get(*item);
        if c == 0 {
            return false;
        }
        self.items.set(*item, c - 1);
        proof {
            assert(self@.items =~= old(self)@.items.insert(
                *item,
                (old(self)@.items[*item] - 1) as nat,
            ));
            assert(self@.parts =~= old(self)@.parts);
        }
        true
    }

    /// Uses the held item shown in `slot` (counting held items in declaration
    /// order), if there is one, and returns it.
    pub fn take_selected_item(&mut self, slot: Option<u16>) -> (r: Option<Item>)
        ensures
            match slot {
                Some(s) if (s as int) < old(self)@.held_items().len() => {
                    &&& r == Some(old(self)@.held_items()[s as int])
                    &&& final(self)@ == old(self)@.used(old(self)@.held_items()[s as int])
                },
                _ => r == None::<Item> && *final(self) == *old(self),
            },
    {
        let s = match slot {
            Some(s) => s,
            None => return None,
        };
        let held = self.held_items();
        if (s as usize) >= held.len() {
            return None;
        }
        let item = held[s as usize];
        proof {
            let v = old(self)@;
            assert(v.held_items().contains(item));
            reveal(Seq::filter);
            v.lemma_held_positive(item);
        }
        self.use_item(&item);
        Some(item)
    }

    /// For each part that `item` takes, in declaration order: the part, how
    /// many are held and how many the recipe takes.
    pub fn recipe_status(&self, item: Item) -> (r: Vec<(Part, u32, u32)>)
        ensures
            r@.len() == recipe_parts(item).len(),
            forall|k: int|
                0 <= k < r@.len() ==> #[trigger] r@[k] == (
                    recipe_parts(item)[k],
                    self@.parts[recipe_parts(item)[k]] as u32,
                    requirement(item)[recipe_parts(item)[k]] as u32,
                ),
    {
        let ingredients = item.ingredients();
        let need = tally(&ingredients);
        let mut r: Vec<(Part, u32, u32)> = Vec::new();
        if need.battery > 0 {
            r.push((Part::Battery, self.parts.battery, need.battery));
        }
        if need.electronics > 0 {
            r.push((Part::Electronics, self.parts.electronics, need.electronics));
        }
        if need.buzzer > 0 {
            r.push((Part::Buzzer, self.parts.buzzer, need.buzzer));
        }
        if need.explosive > 0 {
            r.push((Part::Explosive, self.parts.explosive, need.explosive));
        }
        if need.motor > 0 {
            r.push((Part::Motor, self.parts.motor, need.motor));
        }
        proof {
            lemma_requirement(item, Part::Battery);
            lemma_requirement(item, Part::Electronics);
            lemma_requirement(item, Part::Buzzer);
            lemma_requirement(item, Part::Explosive);
            lemma_requirement(item, Part::Motor);
            assert(need.count(Part::Battery) == requirement(item)[Part::Battery]);
            assert(need.count(Part::Electronics) == requirement(item)[Part::Electronics]);
            assert(need.count(Part::Buzzer) == requirement(item)[Part::Buzzer]);
            assert(need.count(Part::Explosive) == requirement(item)[Part::Explosive]);
            assert(need.count(Part::Motor) == requirement(item)[Part::Motor]);
        }
        r
    }

    /// Every part with its held count, in declaration order.
    pub fn get_parts(&self) -> (r: Vec<(Part, u32)>)
        ensures
            r@.len() == 5,
            forall|k: int|
                0 <= k < 5 ==> #[trigger] r@[k] == (every_part()[k], self@.parts[every_part()[k]] as u32),
    {
        let mut r: Vec<(Part, u32)> = Vec::new();
        r.push((Part::Battery, self.parts.battery));
        r.push((Part::Electronics, self.parts.electronics));
        r.push((Part::Buzzer, self.parts.buzzer));
        r.push((Part::Explosive, self.parts.explosive));
        r.push((Part::Motor, self.parts.motor));
        r
    }

    /// The held count of `part`.
    pub fn part_count(&self, part: Part) -> (r: u32)
        ensures
            r == self@.parts[part],
    {
        self.parts.get(part)
    }

    /// The held count of `item`.
    pub fn item_count(&self, item: Item) -> (r: u32)
        ensures
            r == self@.items[item],
    {
        self.items.get(item)
    }

    /// Spends `count` rounds of ammunition.
    pub fn use_ammo(&mut self, count: u32)
        requires
            old(self)@.ammo >= count,
        ensures
            final(self)@ == (InventoryView { ammo: (old(self)@.ammo - count) as nat, ..old(self)@ }),
    {
        self.ammo_count = self.ammo_count - count;
    }

    /// Adds `count` rounds of ammunition.
    pub fn add_ammo(&mut self, count: u32)
        requires
            old(self)@.ammo + count <= u32::MAX,
        ensures
            final(self)@ == (InventoryView { ammo: (old(self)@.ammo + count) as nat, ..old(self)@ }),
    {
        self.ammo_count = self.ammo_count + count;
    }

    /// The rounds of ammunition held.
    pub fn ammo_count(&self) -> (r: u32)
        ensures
            r == self@.ammo,
    {
        self.ammo_count
    }
}

/// The player's inventory component, created with a starting loadout.
#[derive(Clone, Copy, Debug, PartialEq, Eq)]
pub struct PlayerInventory(pub Inventory);

impl Default for PlayerInventory {
    /// The parts for one proximity bomb and one alarm, and fifteen rounds.
    fn default() -> (r: PlayerInventory)
        ensures
            forall|p: Part| #[trigger] r.0@.parts[p] == requirement(Item::ProximityBomb)[p]
                + requirement(Item::Alarm)[p],
            forall|i: Item| #[trigger] r.0@.items[i] == 0,
            r.0@.ammo == 15,
    {
        let mut inventory = Inventory::new();
        let bomb = Item::ProximityBomb.ingredients();
        let alarm = Item::Alarm.ingredients();
        proof {
            assert forall|p: Part| #[trigger] count_in(recipe(Item::ProximityBomb), p) <= 1 by {
                lemma_requirement(Item::ProximityBomb, p);
            }
            assert forall|p: Part| #[trigger] count_in(recipe(Item::Alarm), p) <= 1 by {
                lemma_requirement(Item::Alarm, p);
            }
        }
        inventory.add_parts(bomb.as_slice());
        inventory.add_parts(alarm.as_slice());
        inventory.add_ammo(15);
        PlayerInventory(inventory)
    }
}

/// The item selected in the crafting menu.
#[derive(Clone, Copy, Debug, PartialEq, Eq, Structural)]
pub struct CraftingTarget(pub Item);

impl CraftingTarget {
    /// Selects the item after the current one in menu order, wrapping around.
    pub fn next(&mut self)
        requires
            old(self).0 != Item::Drone,
        ensures
            final(self).0 == if old(self).0 == Item::ProximityBomb {
                Item::Alarm
            } else {
                Item::ProximityBomb
            },
    {
        self.0 = match self.0 {
            Item::ProximityBomb => Item::Alarm,
            _ => Item::ProximityBomb,
        };
    }

    /// Selects the item before the current one in menu order, wrapping around.
    pub fn previous(&mut self)
        requires
            old(self).0 != Item::Drone,
        ensures
            final(self).0 == if old(self).0 == Item::Alarm {
                Item::ProximityBomb
            } else {
                Item::Alarm
            },
    {
        self.0 = match self.0 {
            Item::Alarm => Item::ProximityBomb,
            _ => Item::Alarm,
        };
    }
}

} // verus!
