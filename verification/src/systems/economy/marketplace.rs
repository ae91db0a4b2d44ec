use crate::resources::economy::resources::ResourceHandle;
use vstd::prelude::*;

verus! {

/// What the market reads of an open offer. `price_key` is an integer that
/// orders offers exactly as their unit prices are ordered (a total order in
/// which every undefined price ranks above all others).
#[derive(Clone, Copy, Debug)]
pub struct OfferListing {
    pub resource: ResourceHandle,
    /// Whether any amount is left on the offer.
    pub has_amount: bool,
    pub price_key: i64,
}

/// What the market reads of an open order; `price_key` orders orders as
/// their maximum unit prices are ordered.
#[derive(Clone, Copy, Debug)]
pub struct OrderListing {
    pub resource: ResourceHandle,
    pub price_key: i64,
}

/// Whether an offer can serve a buyer of `resource`.
pub open spec fn offer_matches(offer: OfferListing, resource: ResourceHandle) -> bool {
    offer.resource == resource && offer.has_amount
}

/// `index` is the cheapest matching offer, and the first of them if several
/// are equally cheap.
pub open spec fn is_cheapest_offer(offers: Seq<OfferListing>, resource: ResourceHandle, index: int) -> bool {
    &&& 0 <= index < offers.len()
    &&& offer_matches(offers[index], resource)
    &&& forall|j: int|
        0 <= j < offers.len() && offer_matches(#[trigger] offers[j], resource)
            ==> offers[index].price_key <= offers[j].price_key
    &&& forall|j: int|
        0 <= j < index && offer_matches(#[trigger] offers[j], resource)
            ==> offers[index].price_key < offers[j].price_key
}

/// The result of looking for the cheapest offer: `None` exactly when no
/// offer matches.
pub open spec fn cheapest_offer_result(
    offers: Seq<OfferListing>,
    resource: ResourceHandle,
    result: Option<usize>,
) -> bool {
    match result {
        None => forall|j: int| 0 <= j < offers.len() ==> !offer_matches(#[trigger] offers[j], resource),
        Some(i) => is_cheapest_offer(offers, resource, i as int),
    }
}

/// `index` is the highest-priced order for `resource`, and the last of them
/// if several bid the same.
pub open spec fn is_highest_order(orders: Seq<OrderListing>, resource: ResourceHandle, index: int) -> bool {
    &&& 0 <= index < orders.len()
    &&& orders[index].resource == resource
    &&& forall|j: int|
        0 <= j < orders.len() && (#[trigger] orders[j]).resource == resource
            ==> orders[j].price_key <= orders[index].price_key
    &&& forall|j: int|
        index < j < orders.len() && (#[trigger] orders[j]).resource == resource
            ==> orders[j].price_key < orders[index].price_key
}

/// The result of looking for the highest order: `None` exactly when no order
/// is for `resource`.
pub open spec fn highest_order_result(
    orders: Seq<OrderListing>,
    resource: ResourceHandle,
    result: Option<usize>,
) -> bool {
    match result {
        None => forall|j: int| 0 <= j < orders.len() ==> (#[trigger] orders[j]).resource != resource,
        Some(i) => is_highest_order(orders, resource, i as int),
    }
}

/// Finds the cheapest offer of `resource` that still has an amount left.
/// Among equally cheap offers the first one wins.
pub fn get_cheapest_offer(resource: ResourceHandle, offers: &Vec<OfferListing>) -> (result: Option<usize>)
    ensures
        cheapest_offer_result(offers@, resource, result),
{
    let mut best: Option<usize> = None;
    let n = offers.len();
    for i in 0..n
        invariant
            n == offers@.len(),
            match best {
                None => forall|j: int| 0 <= j < i ==> !offer_matches(#[trigger] offers@[j], resource),
                Some(b) => {
                    &&& b < i
                    &&& offer_matches(offers@[b as int], resource)
                    &&& forall|j: int|
                        0 <= j < i && offer_matches(#[trigger] offers@[j], resource)
                            ==> offers@[b as int].price_key <= offers@[j].price_key
                    &&& forall|j: int|
                        0 <= j < b && offer_matches(#[trigger] offers@[j], resource)
                            ==> offers@[b as int].price_key < offers@[j].price_key
                },
            },
    {
        let offer = offers[i];
        if offer.resource == resource && offer.has_amount {
            match best {
                None => {
                    best = Some(i);
                },
                Some(b) => {
                    if offer.price_key < offers[b].price_key {
                        best = Some(i);
                    }
                },
            }
        }
    }
    best
}

/// Finds the order for `resource` that bids the highest price. Among equal
/// bids the last one wins.
pub fn get_highest_order(resource: ResourceHandle, orders: &Vec<OrderListing>) -> (result: Option<usize>)
    ensures
        highest_order_result(orders@, resource, result),
{
    let mut best: Option<usize> = None;
    let n = orders.len();
    for i in 0..n
        invariant
            n == orders@.len(),
            match best {
                None => forall|j: int| 0 <= j < i ==> (#[trigger] orders@[j]).resource != resource,
                Some(b) => {
                    &&& b < i
                    &&& orders@[b as int].resource == resource
                    &&& forall|j: int|
                        0 <= j < i && (#[trigger] orders@[j]).resource == resource
                            ==> orders@[j].price_key <= orders@[b as int].price_key
                    &&& forall|j: int|
                        b < j < i && (#[trigger] orders@[j]).resource == resource
                            ==> orders@[j].price_key < orders@[b as int].price_key
                },
            },
    {
        let order = orders[i];
        if order.resource == resource {
            match best {
                None => {
                    best = Some(i);
                },
                Some(b) => {
                    if order.price_key >= orders[b].price_key {
                        best = Some(i);
                    }
                },
            }
        }
    }
    best
}

/// For each resource (in the given order), the cheapest open offer of it.
pub fn update_price_index(resource_handles: &Vec<ResourceHandle>, offers: &Vec<OfferListing>) -> (index: Vec<(ResourceHandle, Option<usize>)>)
    ensures
        index@.len() == resource_handles@.len(),
        forall|k: int|
            0 <= k < index@.len() ==> {
                &&& (#[trigger] index@[k]).0 == resource_handles@[k]
                &&& cheapest_offer_result(offers@, resource_handles@[k], index@[k].1)
            },
{
    let mut index: Vec<(ResourceHandle, Option<usize>)> = Vec::new();
    for k in 0..resource_handles.len()
        invariant
            index@.len() == k,
            forall|m: int|
                0 <= m < k ==> {
                    &&& (#[trigger] index@[m]).0 == resource_handles@[m]
                    &&& cheapest_offer_result(offers@, resource_handles@[m], index@[m].1)
                },
    {
        let handle = resource_handles[k];
        index.push((handle, get_cheapest_offer(handle, offers)));
    }
    index
}

/// For each resource (in the given order), the highest open order for it.
pub fn update_order_index(resource_handles: &Vec<ResourceHandle>, orders: &Vec<OrderListing>) -> (index: Vec<(ResourceHandle, Option<usize>)>)
    ensures
        index@.len() == resource_handles@.len(),
        forall|k: int|
            0 <= k < index@.len() ==> {
                &&& (#[trigger] index@[k]).0 == resource_handles@[k]
                &&& highest_order_result(orders@, resource_handles@[k], index@[k].1)
            },
{
    let mut index: Vec<(ResourceHandle, Option<usize>)> = Vec::new();
    for k in 0..resource_handles.len()
        invariant
            index@.len() == k,
            forall|m: int|
                0 <= m < k ==> {
                    &&& (#[trigger] index@[m]).0 == resource_handles@[m]
                    &&& highest_order_result(orders@, resource_handles@[m], index@[m].1)
                },
    {
        let handle = resource_handles[k];
        index.push((handle, get_highest_order(handle, orders)));
    }
    index
}

/// What the cheapest-offer result means: `None` exactly when no offer of the
/// resource has an amount left; otherwise an offer of that resource with an
/// amount left, priced no higher than any other such offer and strictly lower
/// than every such offer before it.
pub proof fn lemma_cheapest_offer_meaning(offers: Seq<OfferListing>, resource: ResourceHandle, result: Option<usize>)
    requires
        cheapest_offer_result(offers, resource, result),
    ensures
        result is None <==> forall|j: int|
            0 <= j < offers.len() ==> !((#[trigger] offers[j]).resource == resource && offers[j].has_amount),
        forall|i: usize|
            result == Some(i) ==> {
                &&& i < offers.len()
                &&& offers[i as int].resource == resource
                &&& offers[i as int].has_amount
                &&& forall|j: int|
                    0 <= j < offers.len() && (#[trigger] offers[j]).resource == resource
                        && offers[j].has_amount ==> offers[i as int].price_key <= offers[j].price_key
                &&& forall|j: int|
                    0 <= j < i && (#[trigger] offers[j]).resource == resource && offers[j].has_amount
                        ==> offers[i as int].price_key < offers[j].price_key
            },
{
    match result {
        Some(i) => {
            assert(offer_matches(offers[i as int], resource));
        },
        None => {},
    }
}

/// What the highest-order result means: `None` exactly when no order is for
/// the resource; otherwise an order for it that bids at least as much as every
/// order for it and strictly more than every such order after it.
pub proof fn lemma_highest_order_meaning(orders: Seq<OrderListing>, resource: ResourceHandle, result: Option<usize>)
    requires
        highest_order_result(orders, resource, result),
    ensures
        result is None <==> forall|j: int| 0 <= j < orders.len() ==> (#[trigger] orders[j]).resource != resource,
        forall|i: usize|
            result == Some(i) ==> {
                &&& i < orders.len()
                &&& orders[i as int].resource == resource
                &&& forall|j: int|
                    0 <= j < orders.len() && (#[trigger] orders[j]).resource == resource
                        ==> orders[j].price_key <= orders[i as int].price_key
                &&& forall|j: int|
                    i < j < orders.len() && (#[trigger] orders[j]).resource == resource
                        ==> orders[j].price_key < orders[i as int].price_key
            },
{
    match result {
        Some(i) => {
            assert(orders[i as int].resource == resource);
        },
        None => {},
    }
}

/// The cheapest-offer result is determined by the offers: two results that
/// both meet its description are the same.
pub proof fn lemma_cheapest_offer_unique(
    offers: Seq<OfferListing>,
    resource: ResourceHandle,
    a: Option<usize>,
    b: Option<usize>,
)
    requires
        cheapest_offer_result(offers, resource, a),
        cheapest_offer_result(offers, resource, b),
    ensures
        a == b,
{
    match (a, b) {
        (Some(i), Some(j)) => {
            if i < j {
                assert(offer_matches(offers[i as int], resource));
            } else if j < i {
                assert(offer_matches(offers[j as int], resource));
            }
        },
        (Some(i), None) => {
            assert(offer_matches(offers[i as int], resource));
        },
        (None, Some(j)) => {
            assert(offer_matches(offers[j as int], resource));
        },
        _ => {},
    }
}

/// The highest-order result is determined by the orders.
pub proof fn lemma_highest_order_unique(
    orders: Seq<OrderListing>,
    resource: ResourceHandle,
    a: Option<usize>,
    b: Option<usize>,
)
    requires
        highest_order_result(orders, resource, a),
        highest_order_result(orders, resource, b),
    ensures
        a == b,
{
    match (a, b) {
        (Some(i), Some(j)) => {
            if i < j {
                assert(orders[j as int].resource == resource);
            } else if j < i {
                assert(orders[i as int].resource == resource);
            }
        },
        (Some(i), None) => {
            assert(orders[i as int].resource == resource);
        },
        (None, Some(j)) => {
            assert(orders[j as int].resource == resource);
        },
        _ => {},
    }
}

} // verus!
