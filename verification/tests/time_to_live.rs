use econosim_bevy::components::common::TimeToLive;
use econosim_bevy::systems::common::update_time_to_live;

#[test]
fn ttl_decrements_each_tick() {
    let mut lives = vec![TimeToLive(5)];
    update_time_to_live(&mut lives);
    assert_eq!(lives[0].0, 4);
}

#[test]
fn entity_despawned_when_ttl_reaches_zero() {
    let mut lives = vec![TimeToLive(1)];
    let expired = update_time_to_live(&mut lives);
    assert!(expired[0]);
}

#[test]
fn entity_survives_while_ttl_above_zero() {
    let mut lives = vec![TimeToLive(2)];
    let expired = update_time_to_live(&mut lives);
    assert!(!expired[0]);
}

#[test]
fn listing_lives_exactly_its_time_to_live() {
    let mut lives = vec![TimeToLive(3), TimeToLive(1), TimeToLive(2)];
    let first = update_time_to_live(&mut lives);
    assert_eq!(first, vec![false, true, false]);
    let mut survivors = vec![TimeToLive(lives[0].0), TimeToLive(lives[2].0)];
    let second = update_time_to_live(&mut survivors);
    assert_eq!(second, vec![false, true]);
    let mut last = vec![TimeToLive(survivors[0].0)];
    let third = update_time_to_live(&mut last);
    assert_eq!(third, vec![true]);
    assert_eq!(last[0].0, 0);
}

#[test]
fn tick_reports_expiry() {
    let mut ttl = TimeToLive(2);
    assert!(!ttl.tick());
    assert!(ttl.tick());
    assert_eq!(ttl.0, 0);
}
