use econosim_bevy::components::economy::producer::OfferSchedule;
use econosim_bevy::systems::economy::producer::manage_producers;

fn config(ticks_since: usize, ticks_between: usize) -> OfferSchedule {
    OfferSchedule {
        resource: 0,
        ticks_between_offers: ticks_between,
        ticks_since_last_offer: ticks_since,
    }
}

#[test]
fn spawns_offer_on_interval_tick() {
    let mut producers = vec![config(0, 3)];
    let offers = manage_producers(&mut producers);
    assert_eq!(offers.iter().filter(|&&o| o).count(), 1);
}

#[test]
fn no_offer_between_intervals() {
    let mut producers = vec![config(1, 3)];
    let offers = manage_producers(&mut producers);
    assert_eq!(offers.iter().filter(|&&o| o).count(), 0);
}

#[test]
fn offers_repeat_every_interval() {
    let mut producers = vec![config(0, 3)];
    let mut pattern = Vec::new();
    for _ in 0..9 {
        pattern.push(manage_producers(&mut producers)[0]);
    }
    assert_eq!(
        pattern,
        vec![true, false, false, true, false, false, true, false, false]
    );
    assert_eq!(producers[0].resource, 0);
    assert_eq!(producers[0].ticks_between_offers, 3);
}

#[test]
fn interval_of_one_offers_every_tick() {
    let mut schedule = config(5, 1);
    assert!(schedule.tick());
    assert_eq!(schedule.ticks_since_last_offer, 1);
    assert!(schedule.tick());
}

#[test]
fn counter_resets_after_offer() {
    let mut schedule = config(6, 3);
    assert!(schedule.tick());
    assert_eq!(schedule.ticks_since_last_offer, 1);
    assert!(!schedule.tick());
    assert_eq!(schedule.ticks_since_last_offer, 2);
}

#[test]
fn offer_has_correct_resource_and_price() {
    // The offer's resource comes from the schedule; its amount (10.0) and price
    // (5.0) are floating point and are copied from the producer config outside
    // the library. Here: the offer is due, for resource 0, and the producer's
    // resource and interval are kept.
    let mut producers = vec![OfferSchedule { resource: 0, ticks_between_offers: 3, ticks_since_last_offer: 0 }];
    let offers = manage_producers(&mut producers);
    assert_eq!(offers, vec![true]);
    assert_eq!(producers[0].resource, 0);
    assert_eq!(producers[0].ticks_between_offers, 3);
    assert_eq!(producers[0].ticks_since_last_offer, 1);
}

#[test]
fn offers_from_zero_are_ceil_of_ticks_over_interval() {
    for between in 1..6usize {
        for ticks in 0..20usize {
            let mut producers = vec![config(0, between)];
            let mut count = 0;
            for _ in 0..ticks {
                if manage_producers(&mut producers)[0] {
                    count += 1;
                }
            }
            assert_eq!(count, (ticks + between - 1) / between);
        }
    }
}
