use crate::components::common::TimeToLive;
use vstd::prelude::*;

verus! {

/// Counts every listing's time to live down by one tick. The result says, per
/// listing, whether it has run out and must be removed from the market.
pub fn update_time_to_live(lives: &mut Vec<TimeToLive>) -> (expired: Vec<bool>)
    requires
        forall|i: int| 0 <= i < old(lives)@.len() ==> #[trigger] old(lives)@[i].0 > 0,
    ensures
        final(lives)@.len() == old(lives)@.len(),
        expired@.len() == old(lives)@.len(),
        forall|i: int|
            0 <= i < old(lives)@.len() ==> #[trigger] final(lives)@[i].0 == old(lives)@[i].0 - 1,
        forall|i: int| 0 <= i < old(lives)@.len() ==> #[trigger] expired@[i] == (old(lives)@[i].0 == 1),
{
    let mut expired: Vec<bool> = Vec::new();
    let n = lives.len();
    for i in 0..n
        invariant
            n == old(lives)@.len(),
            lives@.len() == n,
            expired@.len() == i,
            forall|j: int| 0 <= j < n ==> #[trigger] old(lives)@[j].0 > 0,
            forall|j: int| 0 <= j < i ==> #[trigger] lives@[j].0 == old(lives)@[j].0 - 1,
            forall|j: int| i <= j < n ==> #[trigger] lives@[j].0 == old(lives)@[j].0,
            forall|j: int| 0 <= j < i ==> #[trigger] expired@[j] == (old(lives)@[j].0 == 1),
    {
        let remaining = lives[i].0 - 1;
        lives.set(i, TimeToLive(remaining));
        expired.push(remaining == 0);
    }
    expired
}

} // verus!
