use econosim_bevy::resources::economy::marketplace::MarketplaceStatistics;
use ordered_float::OrderedFloat;
use econosim_bevy::systems::economy::marketplace::{
    get_cheapest_offer, get_highest_order, update_order_index, update_price_index, OfferListing,
    OrderListing,
};

/// Ranks of the prices in `OrderedFloat` order (equal prices share a rank).
fn keys(prices: &[f64]) -> Vec<i64> {
    let mut distinct: Vec<OrderedFloat<f64>> = prices.iter().map(|&p| OrderedFloat(p)).collect();
    distinct.sort();
    distinct.dedup();
    prices
        .iter()
        .map(|&p| distinct.binary_search(&OrderedFloat(p)).unwrap() as i64)
        .collect()
}

/// Offer listings for (resource, amount, price) triples.
fn offers(items: &[(usize, f64, f64)]) -> Vec<OfferListing> {
    let prices: Vec<f64> = items.iter().map(|i| i.2).collect();
    items
        .iter()
        .zip(keys(&prices))
        .map(|(&(resource, amount, _), price_key)| OfferListing { resource, has_amount: amount > 0.0, price_key })
        .collect()
}

/// Order listings for (resource, max price) pairs.
fn orders(items: &[(usize, f64)]) -> Vec<OrderListing> {
    let prices: Vec<f64> = items.iter().map(|i| i.1).collect();
    items
        .iter()
        .zip(keys(&prices))
        .map(|(&(resource, _), price_key)| OrderListing { resource, price_key })
        .collect()
}

#[test]
fn cheapest_offer_empty() {
    assert!(get_cheapest_offer(0, &Vec::new()).is_none());
}

#[test]
fn cheapest_offer_filters_wrong_resource() {
    let offers = offers(&[(1, 5.0, 10.0)]);
    assert!(get_cheapest_offer(0, &offers).is_none());
}

#[test]
fn cheapest_offer_filters_zero_amount() {
    let offers = offers(&[(0, 0.0, 10.0)]);
    assert!(get_cheapest_offer(0, &offers).is_none());
}

#[test]
fn cheapest_offer_single() {
    let prices = [(0, 5.0, 10.0)];
    let offers = offers(&prices);
    let best = get_cheapest_offer(0, &offers);
    assert_eq!(best, Some(0));
    assert_eq!(prices[best.unwrap()].2, 10.0);
}

#[test]
fn cheapest_offer_picks_min_price() {
    let prices = [(0, 5.0, 3.0), (0, 5.0, 9.0)];
    let offers = offers(&prices);
    let best = get_cheapest_offer(0, &offers);
    assert_eq!(best, Some(0));
    assert_eq!(prices[best.unwrap()].2, 3.0);
}

#[test]
fn highest_order_empty() {
    assert!(get_highest_order(0, &Vec::new()).is_none());
}

#[test]
fn highest_order_picks_max_price() {
    let prices = [(0, 5.0), (0, 10.0)];
    let orders = orders(&prices);
    let best = get_highest_order(0, &orders);
    assert_eq!(best, Some(1));
    assert_eq!(prices[best.unwrap()].1, 10.0);
}

#[test]
fn cheapest_offer_first_of_equal_prices() {
    let offers = offers(&[(0, 1.0, 9.0), (0, 1.0, 4.0), (0, 1.0, 4.0)]);
    assert_eq!(get_cheapest_offer(0, &offers), Some(1));
}

#[test]
fn highest_order_last_of_equal_prices() {
    let orders = orders(&[(0, 7.0), (0, 7.0), (0, 2.0)]);
    assert_eq!(get_highest_order(0, &orders), Some(1));
}

#[test]
fn negative_and_nan_prices_are_ordered() {
    let offers = offers(&[(0, 1.0, f64::NAN), (0, 1.0, -2.0), (0, 1.0, 0.0)]);
    assert_eq!(get_cheapest_offer(0, &offers), Some(1));
    let orders = orders(&[(0, 1e9), (0, f64::NAN)]);
    assert_eq!(get_highest_order(0, &orders), Some(1));
}

#[test]
fn price_and_order_index_per_resource() {
    let offers = offers(&[(0, 1.0, 2.0), (1, 1.0, 1.0), (0, 1.0, 1.5)]);
    let orders = orders(&[(1, 3.0), (1, 4.0)]);
    let handles = vec![0, 1, 2];
    let prices = update_price_index(&handles, &offers);
    assert_eq!(prices, vec![(0, Some(2)), (1, Some(1)), (2, None)]);
    let bids = update_order_index(&handles, &orders);
    assert_eq!(bids, vec![(0, None), (1, Some(1)), (2, None)]);
}

#[test]
fn statistics_count_company_trades_only() {
    let mut stats = MarketplaceStatistics::default();
    // a consumer buys from a company and exhausts its offer
    stats.record_fill(false, true, true, true);
    assert_eq!(stats.company_orders_fulfilled, 0);
    assert_eq!(stats.company_orders_partly_fulfilled, 0);
    assert_eq!(stats.company_offers_fulfilled, 1);
    // a company buys part of its order from a producer
    stats.record_fill(true, false, false, true);
    assert_eq!(stats.company_orders_partly_fulfilled, 1);
    assert_eq!(stats.company_offers_fulfilled, 1);
    assert_eq!(stats.company_offers_partly_fulfilled, 0);
    // company to company, order done, offer left
    stats.record_fill(true, true, true, false);
    assert_eq!(stats.company_orders_fulfilled, 1);
    assert_eq!(stats.company_offers_partly_fulfilled, 1);
    assert_eq!(stats.company_orders_placed, 0);
    assert_eq!(stats.company_offers_placed, 0);
}

#[test]
fn placed_orders_and_offers_are_counted() {
    let mut stats = MarketplaceStatistics::default();
    stats.record_order_placed();
    stats.record_order_placed();
    stats.record_offer_placed();
    assert_eq!(stats.company_orders_placed, 2);
    assert_eq!(stats.company_offers_placed, 1);
    assert_eq!(stats.company_orders_fulfilled, 0);
    assert_eq!(stats.company_offers_fulfilled, 0);
}
