use std::str::FromStr;
use survival_core::crafting::{CraftingAssets, CraftingTarget, Inventory, Item, Part, PlayerInventory};

fn inventory_with(parts: &[Part]) -> Inventory {
    let mut inv = Inventory::new();
    inv.add_parts(parts);
    inv
}

#[test]
fn starting_parts_craft_one_proximity_bomb() {
    let mut inv = inventory_with(&[Part::Electronics, Part::Battery, Part::Explosive]);
    assert!(inv.can_craft(Item::ProximityBomb));
    assert!(inv.craft(Item::ProximityBomb));
    for (_, count) in inv.get_parts() {
        assert_eq!(count, 0);
    }
    assert_eq!(inv.item_count(Item::ProximityBomb), 1);
    assert_eq!(inv.item_count(Item::Alarm), 0);
    assert_eq!(inv.item_count(Item::Drone), 0);
}

#[test]
fn failed_craft_leaves_inventory_unchanged() {
    let mut inv = inventory_with(&[Part::Electronics, Part::Battery, Part::Buzzer]);
    inv.add_ammo(7);
    let before = inv.clone();
    assert!(!inv.can_craft(Item::ProximityBomb));
    assert!(!inv.craft(Item::ProximityBomb));
    assert_eq!(inv, before);
    assert_eq!(inv.ammo_count(), 7);
}

#[test]
fn craft_succeeds_exactly_when_affordable() {
    let stocks: Vec<Vec<Part>> = vec![
        vec![],
        vec![Part::Electronics, Part::Battery],
        vec![Part::Electronics, Part::Battery, Part::Buzzer, Part::Buzzer],
        vec![Part::Electronics, Part::Electronics, Part::Battery, Part::Battery, Part::Explosive, Part::Motor],
    ];
    for stock in &stocks {
        for item in [Item::ProximityBomb, Item::Alarm, Item::Drone] {
            let mut inv = inventory_with(stock);
            let before = inv.clone();
            let could = inv.can_craft(item);
            assert_eq!(inv.craft(item), could);
            let recipe = item.ingredients();
            for (part, count) in inv.get_parts() {
                let need = recipe.iter().filter(|p| **p == part).count() as u32;
                if could {
                    assert_eq!(count + need, before.part_count(part));
                } else {
                    assert_eq!(count, before.part_count(part));
                }
            }
            let expected_items = if could { 1 } else { 0 };
            assert_eq!(inv.item_count(item), expected_items);
        }
    }
}

#[test]
fn repeated_parts_are_counted() {
    let inv = inventory_with(&[Part::Battery, Part::Battery, Part::Motor]);
    assert_eq!(inv.part_count(Part::Battery), 2);
    assert_eq!(inv.part_count(Part::Motor), 1);
    assert_eq!(inv.part_count(Part::Buzzer), 0);
    assert!(!inv.can_craft(Item::Drone));
}

#[test]
fn recipes_take_electronics_battery_and_one_part() {
    assert_eq!(Item::ProximityBomb.ingredients(), vec![Part::Electronics, Part::Battery, Part::Explosive]);
    assert_eq!(Item::Alarm.ingredients(), vec![Part::Electronics, Part::Battery, Part::Buzzer]);
    assert_eq!(Item::Drone.ingredients(), vec![Part::Electronics, Part::Battery, Part::Motor]);
}

#[test]
fn use_item_needs_a_held_item() {
    let mut inv = inventory_with(&[Part::Electronics, Part::Battery, Part::Buzzer]);
    let before = inv.clone();
    assert!(!inv.use_item(&Item::Alarm));
    assert_eq!(inv, before);
    assert!(inv.craft(Item::Alarm));
    assert!(inv.use_item(&Item::Alarm));
    assert_eq!(inv.item_count(Item::Alarm), 0);
}

#[test]
fn selected_slot_takes_held_items_in_order() {
    let mut inv = inventory_with(&[
        Part::Electronics, Part::Battery, Part::Buzzer, Part::Electronics, Part::Battery, Part::Explosive,
    ]);
    assert!(inv.craft(Item::Alarm));
    assert!(inv.craft(Item::ProximityBomb));
    assert_eq!(inv.held_items(), vec![Item::ProximityBomb, Item::Alarm]);
    let before = inv.clone();
    assert_eq!(inv.take_selected_item(None), None);
    assert_eq!(inv.take_selected_item(Some(2)), None);
    assert_eq!(inv, before);
    assert_eq!(inv.take_selected_item(Some(1)), Some(Item::Alarm));
    assert_eq!(inv.held_items(), vec![Item::ProximityBomb]);
    assert_eq!(inv.take_selected_item(Some(0)), Some(Item::ProximityBomb));
    assert!(inv.held_items().is_empty());
}

#[test]
fn ammunition_is_added_and_spent() {
    let mut inv = Inventory::new();
    assert_eq!(inv.ammo_count(), 0);
    inv.add_ammo(15);
    inv.use_ammo(4);
    assert_eq!(inv.ammo_count(), 11);
}

#[test]
fn player_starts_with_bomb_and_alarm_parts() {
    let inv = PlayerInventory::default().0;
    assert_eq!(inv.part_count(Part::Electronics), 2);
    assert_eq!(inv.part_count(Part::Battery), 2);
    assert_eq!(inv.part_count(Part::Buzzer), 1);
    assert_eq!(inv.part_count(Part::Explosive), 1);
    assert_eq!(inv.part_count(Part::Motor), 0);
    assert_eq!(inv.ammo_count(), 15);
    assert!(inv.can_craft(Item::ProximityBomb));
    assert!(inv.can_craft(Item::Alarm));
}

#[test]
fn listings_follow_declaration_order() {
    let inv = inventory_with(&[Part::Buzzer]);
    assert_eq!(
        inv.get_parts(),
        vec![(Part::Battery, 0), (Part::Electronics, 0), (Part::Buzzer, 1), (Part::Explosive, 0), (Part::Motor, 0)]
    );
    assert_eq!(inv.get_items(), vec![(Item::ProximityBomb, 0), (Item::Alarm, 0), (Item::Drone, 0)]);
}

#[test]
fn recipe_status_shows_held_and_needed() {
    let inv = inventory_with(&[Part::Battery, Part::Explosive, Part::Explosive]);
    assert_eq!(
        inv.recipe_status(Item::ProximityBomb),
        vec![(Part::Battery, 1, 1), (Part::Electronics, 0, 1), (Part::Explosive, 2, 1)]
    );
}

#[test]
fn item_names_parse_and_display() {
    assert_eq!(Item::from_name("Alarm"), Some(Item::Alarm));
    assert_eq!(Item::from_name("ProximityBomb"), Some(Item::ProximityBomb));
    assert_eq!(Item::from_name("Drone"), Some(Item::Drone));
    assert_eq!(Item::from_name("CraftButton"), None);
    assert_eq!(Item::from_str("Alarm"), Ok(Item::Alarm));
    assert_eq!(Item::from_str("alarm"), Err(()));
    assert_eq!(Item::ProximityBomb.as_str(), "Proximity Bomb");
    assert_eq!(Item::Alarm.as_str(), "Alarm");
}

#[test]
fn asset_handles_follow_the_item() {
    let assets = CraftingAssets { proximity_bomb: "bomb", proximity_bomb_scene: "bomb_scene", alarm: "alarm", alarm_scene: "alarm_scene" };
    assert_eq!(*Item::ProximityBomb.as_texture_handle(&assets), "bomb");
    assert_eq!(*Item::Alarm.as_scene_handle(&assets), "alarm_scene");
}

#[test]
fn crafting_menu_cycles() {
    let mut target = CraftingTarget(Item::ProximityBomb);
    target.next();
    assert_eq!(target.0, Item::Alarm);
    target.next();
    assert_eq!(target.0, Item::ProximityBomb);
    target.previous();
    assert_eq!(target.0, Item::Alarm);
    assert_eq!(Item::all(), vec![Item::ProximityBomb, Item::Alarm]);
}

#[test]
fn loot_is_weighted_and_never_a_motor() {
    assert_eq!(Part::Battery.loot_weight(), 7);
    assert_eq!(Part::Electronics.loot_weight(), 7);
    assert_eq!(Part::Buzzer.loot_weight(), 5);
    assert_eq!(Part::Explosive.loot_weight(), 5);
    assert_eq!(Part::all(), vec![Part::Battery, Part::Electronics, Part::Buzzer, Part::Explosive]);
    let mut seen = std::collections::HashSet::new();
    for _ in 0..2000 {
        let p = Part::random();
        assert_ne!(p, Part::Motor);
        seen.insert(p);
    }
    assert_eq!(seen.len(), 4);
}
