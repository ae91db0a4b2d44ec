use vstd::prelude::*;

verus! {

/// The timing of a producer: it puts an offer for `resource` on the market
/// whenever its tick counter is a multiple of `ticks_between_offers`.
pub struct OfferSchedule {
    pub resource: usize,
    pub ticks_between_offers: usize,
    pub ticks_since_last_offer: usize,
}

/// Whether a producer whose counter reads `since` places an offer this tick.
pub open spec fn spec_places_offer(since: nat, between: nat) -> bool {
    since % between == 0
}

/// The counter after one tick.
pub open spec fn spec_next_since(since: nat, between: nat) -> nat {
    if spec_places_offer(since, between) {
        1
    } else {
        since + 1
    }
}

/// The counter after `ticks` ticks.
pub open spec fn spec_since_after(since: nat, between: nat, ticks: nat) -> nat
    decreases ticks,
{
    if ticks == 0 {
        since
    } else {
        spec_next_since(spec_since_after(since, between, (ticks - 1) as nat), between)
    }
}

impl OfferSchedule {
    /// Whether this tick can be taken without the counter overflowing and
    /// without a zero interval.
    pub open spec fn can_tick(self) -> bool {
        &&& self.ticks_between_offers > 0
        &&& (self.ticks_since_last_offer % self.ticks_between_offers == 0
            || self.ticks_since_last_offer < usize::MAX)
    }

    /// Advances the schedule by one tick; returns whether an offer is due now.
    pub fn tick(&mut self) -> (place_offer: bool)
        requires
            old(self).can_tick(),
        ensures
            place_offer == spec_places_offer(
                old(self).ticks_since_last_offer as nat,
                old(self).ticks_between_offers as nat,
            ),
            final(self).ticks_since_last_offer == spec_next_since(
                old(self).ticks_since_last_offer as nat,
                old(self).ticks_between_offers as nat,
            ),
            final(self).resource == old(self).resource,
            final(self).ticks_between_offers == old(self).ticks_between_offers,
    {
        let place_offer = self.ticks_since_last_offer % self.ticks_between_offers == 0;
        if place_offer {
            self.ticks_since_last_offer = 0;
        }
        self.ticks_since_last_offer = self.ticks_since_last_offer + 1;
        place_offer
    }
}

/// A producer that has just placed an offer (counter 1) places its next one
/// exactly `between` ticks later and none in between, after which its counter
/// is back at 1: offers come once every `between` ticks.
pub proof fn lemma_offer_period(between: nat, t: nat)
    requires
        between > 0,
        t < between,
    ensures
        spec_since_after(1, between, t) == 1 + t,
        spec_places_offer(spec_since_after(1, between, t), between) <==> t == between - 1,
        spec_since_after(1, between, between) == 1,
{
    lemma_count_up(between, t);
    if 1 + t < between {
        vstd::arithmetic::div_mod::lemma_small_mod((1 + t) as nat, between);
    } else {
        vstd::arithmetic::div_mod::lemma_mod_self_0(between as int);
    }
    lemma_count_up(between, (between - 1) as nat);
    vstd::arithmetic::div_mod::lemma_mod_self_0(between as int);
    assert(spec_since_after(1, between, between) == spec_next_since(
        spec_since_after(1, between, (between - 1) as nat),
        between,
    ));
}


/// Number of offers placed during the first `ticks` ticks, starting from
/// counter `since`.
pub open spec fn spec_offers_after(since: nat, between: nat, ticks: nat) -> nat
    decreases ticks,
{
    if ticks == 0 {
        0
    } else {
        spec_offers_after(since, between, (ticks - 1) as nat) + if spec_places_offer(
            spec_since_after(since, between, (ticks - 1) as nat),
            between,
        ) {
            1nat
        } else {
            0nat
        }
    }
}

proof fn lemma_mod_step(t: int, b: int)
    by (nonlinear_arith)
    requires
        t >= 1,
        b > 0,
    ensures
        (t - 1) % b == b - 1 ==> t % b == 0,
        (t - 1) % b != b - 1 ==> t % b == (t - 1) % b + 1,
        0 <= (t - 1) % b < b,
{
    let d = (t - 1) / b;
    let r = (t - 1) % b;
    assert(t - 1 == b * d + r);
    if r == b - 1 {
        assert(t == b * (d + 1));
        vstd::arithmetic::div_mod::lemma_mod_multiples_basic(d + 1, b);
    } else {
        assert(t == b * d + (r + 1));
        vstd::arithmetic::div_mod::lemma_fundamental_div_mod_converse(t, b, d, r + 1);
    }
}

proof fn lemma_counter_from_zero(between: nat, t: nat)
    requires
        between > 0,
        t >= 1,
    ensures
        spec_since_after(0, between, t) == ((t - 1) as int) % (between as int) + 1,
    decreases t,
{
    let b = between as int;
    if t == 1 {
        vstd::arithmetic::div_mod::lemma_small_mod(0, between);
        assert(spec_since_after(0, between, 0) == 0);
    } else {
        lemma_counter_from_zero(between, (t - 1) as nat);
        lemma_mod_step((t - 1) as int, b);
        lemma_mod_step(t as int, b);
        let s = spec_since_after(0, between, (t - 1) as nat);
        assert(s == ((t - 2) as int) % b + 1);
        if ((t - 2) as int) % b == b - 1 {
            vstd::arithmetic::div_mod::lemma_mod_self_0(b);
        } else {
            vstd::arithmetic::div_mod::lemma_small_mod(s, between);
        }
    }
}

/// Starting from counter 0, a producer places an offer exactly on the ticks
/// whose number (counting from 0) is a multiple of `between`.
pub proof fn lemma_offer_ticks_from_zero(between: nat, t: nat)
    requires
        between > 0,
    ensures
        spec_places_offer(spec_since_after(0, between, t), between) <==> t % between == 0,
{
    let b = between as int;
    if t == 0 {
        vstd::arithmetic::div_mod::lemma_small_mod(0, between);
    } else {
        lemma_counter_from_zero(between, t);
        lemma_mod_step(t as int, b);
        let s = spec_since_after(0, between, t);
        if ((t - 1) as int) % b == b - 1 {
            vstd::arithmetic::div_mod::lemma_mod_self_0(b);
        } else {
            vstd::arithmetic::div_mod::lemma_small_mod(s, between);
        }
    }
}

proof fn lemma_ceil_step(n: int, b: int)
    by (nonlinear_arith)
    requires
        n >= 0,
        b > 0,
    ensures
        (n + b) / b == (n + b - 1) / b + (if n % b == 0 { 1int } else { 0int }),
{
    let d = n / b;
    let r = n % b;
    assert(n == b * d + r && 0 <= r < b);
    if r == 0 {
        vstd::arithmetic::div_mod::lemma_fundamental_div_mod_converse(n + b, b, d + 1, 0);
        vstd::arithmetic::div_mod::lemma_fundamental_div_mod_converse(n + b - 1, b, d, b - 1);
    } else {
        vstd::arithmetic::div_mod::lemma_fundamental_div_mod_converse(n + b, b, d + 1, r);
        vstd::arithmetic::div_mod::lemma_fundamental_div_mod_converse(n + b - 1, b, d + 1, r - 1);
    }
}

/// A producer whose counter starts at 0 places exactly ceil(`ticks` /
/// `between`) offers during its first `ticks` ticks.
pub proof fn lemma_offer_count_from_zero(between: nat, ticks: nat)
    requires
        between > 0,
    ensures
        spec_offers_after(0, between, ticks) == (ticks + between - 1) / (between as int),
    decreases ticks,
{
    let b = between as int;
    if ticks == 0 {
        vstd::arithmetic::div_mod::lemma_small_mod((b - 1) as nat, between);
        vstd::arithmetic::div_mod::lemma_fundamental_div_mod_converse(b - 1, b, 0, b - 1);
    } else {
        let n = (ticks - 1) as nat;
        lemma_offer_count_from_zero(between, n);
        lemma_offer_ticks_from_zero(between, n);
        lemma_ceil_step(n as int, b);
    }
}

proof fn lemma_count_up(between: nat, t: nat)
    requires
        between > 0,
        t < between,
    ensures
        spec_since_after(1, between, t) == 1 + t,
    decreases t,
{
    if t > 0 {
        lemma_count_up(between, (t - 1) as nat);
        vstd::arithmetic::div_mod::lemma_small_mod(t, between);
    }
}

} // verus!
