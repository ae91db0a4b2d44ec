use vstd::prelude::*;

verus! {

/// Display name of an entity.
pub struct Name(pub String);

/// Number of ticks a market listing stays open.
pub struct TimeToLive(pub usize);

impl TimeToLive {
    /// Counts one tick down and reports whether the listing has run out and
    /// must be removed.
    pub fn tick(&mut self) -> (expired: bool)
        requires
            old(self).0 > 0,
        ensures
            final(self).0 == old(self).0 - 1,
            expired == (final(self).0 == 0),
    {
        self.0 = self.0 - 1;
        self.0 == 0
    }
}

/// Time to live left after `ticks` ticks.
pub open spec fn spec_ttl_after(ttl: nat, ticks: nat) -> int
    decreases ticks,
{
    if ticks == 0 {
        ttl as int
    } else {
        spec_ttl_after(ttl, (ticks - 1) as nat) - 1
    }
}

/// A listing placed with time to live `ttl` stays open through its first
/// `ttl - 1` ticks (each of which may be taken) and runs out on tick `ttl`.
pub proof fn lemma_listing_lifetime(ttl: nat, ticks: nat)
    requires
        0 < ticks <= ttl,
    ensures
        spec_ttl_after(ttl, ticks) == ttl - ticks,
        spec_ttl_after(ttl, (ticks - 1) as nat) > 0,
        spec_ttl_after(ttl, ticks) == 0 <==> ticks == ttl,
    decreases ticks,
{
    if ticks > 1 {
        lemma_listing_lifetime(ttl, (ticks - 1) as nat);
    } else {
        assert(spec_ttl_after(ttl, 0) == ttl);
    }
}

} // verus!
