use vstd::prelude::*;

verus! {

/// Counters of the trades that companies take part in. Consumers and
/// producers trade too, but their orders and offers are not counted here.
pub struct MarketplaceStatistics {
    pub company_orders_placed: usize,
    pub company_offers_placed: usize,
    pub company_orders_partly_fulfilled: usize,
    pub company_offers_partly_fulfilled: usize,
    pub company_orders_fulfilled: usize,
    pub company_offers_fulfilled: usize,
}

impl Default for MarketplaceStatistics {
    fn default() -> (stats: Self)
        ensures
            stats.company_orders_placed == 0,
            stats.company_offers_placed == 0,
            stats.company_orders_partly_fulfilled == 0,
            stats.company_offers_partly_fulfilled == 0,
            stats.company_orders_fulfilled == 0,
            stats.company_offers_fulfilled == 0,
    {
        MarketplaceStatistics {
            company_orders_placed: 0,
            company_offers_placed: 0,
            company_orders_partly_fulfilled: 0,
            company_offers_partly_fulfilled: 0,
            company_orders_fulfilled: 0,
            company_offers_fulfilled: 0,
        }
    }
}

impl MarketplaceStatistics {
    /// Whether recording a fill with these flags cannot overflow a counter.
    pub open spec fn can_record_fill(
        self,
        buyer_is_company: bool,
        seller_is_company: bool,
        order_satisfied: bool,
        offer_exhausted: bool,
    ) -> bool {
        &&& (buyer_is_company && order_satisfied) ==> self.company_orders_fulfilled < usize::MAX
        &&& (buyer_is_company && !order_satisfied) ==> self.company_orders_partly_fulfilled
            < usize::MAX
        &&& (seller_is_company && offer_exhausted) ==> self.company_offers_fulfilled < usize::MAX
        &&& (seller_is_company && !offer_exhausted) ==> self.company_offers_partly_fulfilled
            < usize::MAX
    }

    /// Records one fill of an order against an offer. A company buyer counts
    /// one order as fulfilled or partly fulfilled; a company seller counts one
    /// offer as fulfilled (exhausted) or partly fulfilled. Nothing else changes.
    pub fn record_fill(
        &mut self,
        buyer_is_company: bool,
        seller_is_company: bool,
        order_satisfied: bool,
        offer_exhausted: bool,
    )
        requires
            old(self).can_record_fill(
                buyer_is_company,
                seller_is_company,
                order_satisfied,
                offer_exhausted,
            ),
        ensures
            final(self).company_orders_fulfilled == old(self).company_orders_fulfilled + (
            if buyer_is_company && order_satisfied {
                1int
            } else {
                0int
            }),
            final(self).company_orders_partly_fulfilled == old(self).company_orders_partly_fulfilled
                + (if buyer_is_company && !order_satisfied {
                1int
            } else {
                0int
            }),
            final(self).company_offers_fulfilled == old(self).company_offers_fulfilled + (
            if seller_is_company && offer_exhausted {
                1int
            } else {
                0int
            }),
            final(self).company_offers_partly_fulfilled == old(self).company_offers_partly_fulfilled
                + (if seller_is_company && !offer_exhausted {
                1int
            } else {
                0int
            }),
            final(self).company_orders_placed == old(self).company_orders_placed,
            final(self).company_offers_placed == old(self).company_offers_placed,
    {
        if buyer_is_company {
            if order_satisfied {
                self.company_orders_fulfilled = self.company_orders_fulfilled + 1;
            } else {
                self.company_orders_partly_fulfilled = self.company_orders_partly_fulfilled + 1;
            }
        }
        if seller_is_company {
            if offer_exhausted {
                self.company_offers_fulfilled = self.company_offers_fulfilled + 1;
            } else {
                self.company_offers_partly_fulfilled = self.company_offers_partly_fulfilled + 1;
            }
        }
    }

    /// Records that a company placed a buy order; nothing else changes.
    pub fn record_order_placed(&mut self)
        requires
            old(self).company_orders_placed < usize::MAX,
        ensures
            final(self).company_orders_placed == old(self).company_orders_placed + 1,
            final(self).company_offers_placed == old(self).company_offers_placed,
            final(self).company_orders_partly_fulfilled == old(self).company_orders_partly_fulfilled,
            final(self).company_offers_partly_fulfilled == old(self).company_offers_partly_fulfilled,
            final(self).company_orders_fulfilled == old(self).company_orders_fulfilled,
            final(self).company_offers_fulfilled == old(self).company_offers_fulfilled,
    {
        self.company_orders_placed = self.company_orders_placed + 1;
    }

    /// Records that a company placed a sell offer; nothing else changes.
    pub fn record_offer_placed(&mut self)
        requires
            old(self).company_offers_placed < usize::MAX,
        ensures
            final(self).company_offers_placed == old(self).company_offers_placed + 1,
            final(self).company_orders_placed == old(self).company_orders_placed,
            final(self).company_orders_partly_fulfilled == old(self).company_orders_partly_fulfilled,
            final(self).company_offers_partly_fulfilled == old(self).company_offers_partly_fulfilled,
            final(self).company_orders_fulfilled == old(self).company_orders_fulfilled,
            final(self).company_offers_fulfilled == old(self).company_offers_fulfilled,
    {
        self.company_offers_placed = self.company_offers_placed + 1;
    }
}

} // verus!
