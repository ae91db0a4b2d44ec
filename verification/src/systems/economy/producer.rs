use crate::components::economy::producer::{spec_next_since, spec_places_offer, OfferSchedule};
use vstd::prelude::*;

verus! {

/// Advances every producer's schedule by one tick. The result says, per
/// producer, whether it puts a new offer on the market this tick.
pub fn manage_producers(producers: &mut Vec<OfferSchedule>) -> (place_offer: Vec<bool>)
    requires
        forall|i: int| 0 <= i < old(producers)@.len() ==> #[trigger] old(producers)@[i].can_tick(),
    ensures
        final(producers)@.len() == old(producers)@.len(),
        place_offer@.len() == old(producers)@.len(),
        forall|i: int|
            0 <= i < old(producers)@.len() ==> {
                let before = #[trigger] old(producers)@[i];
                let after = final(producers)@[i];
                &&& place_offer@[i] == spec_places_offer(
                    before.ticks_since_last_offer as nat,
                    before.ticks_between_offers as nat,
                )
                &&& after.ticks_since_last_offer == spec_next_since(
                    before.ticks_since_last_offer as nat,
                    before.ticks_between_offers as nat,
                )
                &&& after.ticks_between_offers == before.ticks_between_offers
                &&& after.resource == before.resource
            },
{
    let mut place_offer: Vec<bool> = Vec::new();
    let n = producers.len();
    for i in 0..n
        invariant
            n == old(producers)@.len(),
            producers@.len() == n,
            place_offer@.len() == i,
            forall|j: int| 0 <= j < n ==> #[trigger] old(producers)@[j].can_tick(),
            forall|j: int| i <= j < n ==> #[trigger] producers@[j] == old(producers)@[j],
            forall|j: int|
                0 <= j < i ==> {
                    let before = #[trigger] old(producers)@[j];
                    let after = producers@[j];
                    &&& place_offer@[j] == spec_places_offer(
                        before.ticks_since_last_offer as nat,
                        before.ticks_between_offers as nat,
                    )
                    &&& after.ticks_since_last_offer == spec_next_since(
                        before.ticks_since_last_offer as nat,
                        before.ticks_between_offers as nat,
                    )
                    &&& after.ticks_between_offers == before.ticks_between_offers
                    &&& after.resource == before.resource
                },
    {
        let mut schedule = OfferSchedule {
            resource: producers[i].resource,
            ticks_between_offers: producers[i].ticks_between_offers,
            ticks_since_last_offer: producers[i].ticks_since_last_offer,
        };
        let due = schedule.tick();
        producers.set(i, schedule);
        place_offer.push(due);
    }
    place_offer
}

} // verus!
