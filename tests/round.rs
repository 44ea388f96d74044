use survival_core::airdrops::{AirDrop, AirDropTimer, AIRDROP_PARTS};
use survival_core::crafting::{Inventory, Part};
use survival_core::text_log::{ItemLogEvent, ItemLogText};
use survival_core::timer::Timer;
use survival_core::{reset_score, GameState, RoundStart, Score, ScoreTimer, SelectedItemSlot};

#[test]
fn one_shot_timer_stays_finished() {
    let mut t = Timer::new(200, false);
    t.tick(150);
    assert!(!t.finished());
    t.tick(100);
    assert!(t.finished() && t.just_finished());
    assert_eq!(t.elapsed_ms(), 200);
    t.tick(10);
    assert!(t.finished() && !t.just_finished());
    t.reset();
    assert!(!t.finished());
    assert_eq!(t.elapsed_ms(), 0);
}

#[test]
fn repeating_timer_wraps() {
    let mut t = Timer::new(500, true);
    t.tick(1300);
    assert!(t.just_finished());
    assert_eq!(t.elapsed_ms(), 300);
    t.tick(100);
    assert!(!t.just_finished());
    assert_eq!(t.elapsed_ms(), 400);
    assert_eq!(t.duration_ms(), 500);
}

#[test]
fn score_rewards_and_saturates() {
    let mut score = Score(0);
    score.add_kills(3);
    assert_eq!(score, Score(300));
    score.add(250);
    assert_eq!(score.0, 550);
    score.add(u64::MAX);
    assert_eq!(score.0, u64::MAX);
    let mut timer = ScoreTimer::new();
    let mut s = Score(0);
    timer.tick(2000, &mut s);
    assert_eq!(s.0, 0);
    timer.tick(500, &mut s);
    assert_eq!(s.0, 50);
    reset_score(&mut s, &mut timer);
    assert_eq!(s.0, 0);
}

#[test]
fn slot_keys_select_the_first_pressed() {
    let mut slot = SelectedItemSlot(Some(0));
    slot.select(&vec![false, false, false, false]);
    assert_eq!(slot, SelectedItemSlot(Some(0)));
    slot.select(&vec![false, true, false, true]);
    assert_eq!(slot, SelectedItemSlot(Some(1)));
}

#[test]
fn round_time_counts_from_the_start() {
    let start = RoundStart(1000);
    assert_eq!(start.elapsed_ms(3500), 2500);
    assert_eq!(start.elapsed_ms(10), 0);
}

#[test]
fn shelter_keys_toggle_the_shelter() {
    assert_eq!(GameState::Playing.after_shelter_keys(true, false), Some(GameState::Sheltered));
    assert_eq!(GameState::Sheltered.after_shelter_keys(true, false), Some(GameState::Playing));
    assert_eq!(GameState::Sheltered.after_shelter_keys(false, true), Some(GameState::Playing));
    assert_eq!(GameState::Playing.after_shelter_keys(false, true), None);
    assert_eq!(GameState::GameOver.after_shelter_keys(true, true), None);
}

#[test]
fn airdrop_timer_starts_halfway() {
    let mut timer = AirDropTimer::new();
    assert_eq!(timer.0.elapsed_ms(), 5000);
    assert!(!timer.tick(4999));
    assert!(timer.tick(1));
    assert!(!timer.tick(1));
    timer.restart();
    assert_eq!(timer.0.elapsed_ms(), 5000);
}

#[test]
fn collecting_an_airdrop_rewards_the_player() {
    let mut inv = Inventory::new();
    let mut score = Score(10);
    let mut timer = AirDropTimer::new();
    timer.tick(5000);
    let drop = AirDrop(vec![Part::Battery, Part::Battery, Part::Buzzer]);
    drop.collect(&mut inv, &mut score, &mut timer);
    assert_eq!(inv.part_count(Part::Battery), 2);
    assert_eq!(inv.part_count(Part::Buzzer), 1);
    assert_eq!(inv.ammo_count(), 25);
    assert_eq!(score.0, 260);
    assert_eq!(timer.0.elapsed_ms(), 0);
    let standard = AirDrop::standard();
    assert_eq!(standard.0.len(), AIRDROP_PARTS);
}

#[test]
fn log_entries_fade_after_four_seconds() {
    let mut log = ItemLogText::new();
    log.add_events(&vec![ItemLogEvent("Picked up a Battery".to_string())], 1000);
    log.add_events(&vec![ItemLogEvent("Picked up 25 bullets".to_string())], 3000);
    log.update(4999);
    assert_eq!(log.lines(), vec!["Picked up a Battery".to_string(), "Picked up 25 bullets".to_string()]);
    log.update(5000);
    assert_eq!(log.lines(), vec!["Picked up 25 bullets".to_string()]);
    log.update(7000);
    assert!(log.lines().is_empty());
}
