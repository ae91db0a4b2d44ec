use crate::resources::reinforcement_learning::action_space::CompanyActionEnum;
use itertools::Itertools;
use vstd::prelude::*;

verus! {

/// `ids` in ascending order.
pub open spec fn is_ascending(ids: Seq<usize>) -> bool {
    forall|i: int, j: int| 0 <= i < j < ids.len() ==> ids[i] <= ids[j]
}

/// Calls `Itertools::sorted` on the ids: per the itertools source it collects
/// them into a vector and sorts it with the standard (stable, ascending) sort.
/// Stated: the result is ascending and holds the same ids, each as often.
#[verifier::external_body]
fn itertools_sorted(ids: Vec<usize>) -> (sorted: Vec<usize>)
    ensures
        sorted@.to_multiset() == ids@.to_multiset(),
        is_ascending(sorted@),
{
    ids.into_iter().sorted().collect()
}

/// Calls `rand::random_range(0..bound)` on the thread-local generator.
/// Stated: the value lies in `0..bound`; which one is left to chance.
#[verifier::external_body]
fn random_below(bound: usize) -> (value: usize)
    requires
        bound > 0,
    ensures
        value < bound,
{
    rand::random_range(0..bound)
}

/// The resource (or recipe) ids in ascending order, so that the n-th entry of
/// every observation vector and the n-th resource action name the same id.
pub fn sorted_ids(ids: Vec<usize>) -> (sorted: Vec<usize>)
    ensures
        sorted@.to_multiset() == ids@.to_multiset(),
        is_ascending(sorted@),
        sorted@.len() == ids@.len(),
{
    let sorted = itertools_sorted(ids);
    proof {
        sorted@.to_multiset_ensures();
        ids@.to_multiset_ensures();
    }
    sorted
}

/// How often `id` occurs in `ids`.
pub open spec fn spec_count(ids: Seq<usize>, id: usize) -> nat {
    ids.to_multiset().count(id)
}

/// Length of a company's observation vector: stock, price index and order
/// index per resource, the money balance, and the processor count per recipe.
pub open spec fn spec_state_size(resource_count: nat, recipe_count: nat) -> nat {
    1 + 3 * resource_count + recipe_count
}

/// The observation holds the stock of every resource, the money balance, the
/// best offer price and best order price of every resource, and the
/// processor count of every recipe, one number each.
pub proof fn lemma_state_size(resource_count: nat, recipe_count: nat)
    ensures
        spec_state_size(resource_count, recipe_count) == resource_count + 1 + resource_count
            + resource_count + recipe_count,
{
}

/// Length of a company's observation vector.
pub fn state_size(resource_count: usize, recipe_count: usize) -> (size: usize)
    requires
        spec_state_size(resource_count as nat, recipe_count as nat) <= usize::MAX,
    ensures
        size == spec_state_size(resource_count as nat, recipe_count as nat),
{
    1 + 3 * resource_count + recipe_count
}

/// Number of processors per recipe, for the recipes in ascending id order.
/// `processor_recipes` holds the recipe id of each of the company's processors.
pub fn processor_counts(processor_recipes: &Vec<usize>, recipe_ids: Vec<usize>) -> (result: (
    Vec<usize>,
    Vec<usize>,
))
    ensures
        result.0@.to_multiset() == recipe_ids@.to_multiset(),
        is_ascending(result.0@),
        result.1@.len() == result.0@.len(),
        forall|k: int|
            0 <= k < result.1@.len() ==> #[trigger] result.1@[k] == spec_count(
                processor_recipes@,
                result.0@[k],
            ),
{
    let sorted = sorted_ids(recipe_ids);
    let mut counts: Vec<usize> = Vec::new();
    for k in 0..sorted.len()
        invariant
            counts@.len() == k,
            forall|m: int|
                0 <= m < k ==> #[trigger] counts@[m] == spec_count(processor_recipes@, sorted@[m]),
    {
        counts.push(count_of(processor_recipes, sorted[k]));
    }
    (sorted, counts)
}

fn count_of(ids: &Vec<usize>, id: usize) -> (count: usize)
    ensures
        count == spec_count(ids@, id),
{
    broadcast use vstd::multiset::group_multiset_axioms;
    let mut count: usize = 0;
    proof {
        let empty = ids@.subrange(0, 0);
        assert(empty =~= Seq::<usize>::empty());
        empty.to_multiset_ensures();
        assert(empty.to_multiset().len() == 0);
    }
    for i in 0..ids.len()
        invariant
            count == spec_count(ids@.subrange(0, i as int), id),
            count <= i,
    {
        assert(ids@.subrange(0, i + 1) =~= ids@.subrange(0, i as int).push(ids@[i as int]));
        proof {
            vstd::seq_lib::to_multiset_build(ids@.subrange(0, i as int), ids@[i as int]);
        }
        if ids[i] == id {
            count = count + 1;
        }
    }
    assert(ids@.subrange(0, ids@.len() as int) =~= ids@);
    count
}

/// The index of the next action given the random draw `draw`: the draw while
/// exploring, otherwise the greedy choice of the network.
pub fn pick_action_index(exploring: bool, greedy_index: usize, draw: usize) -> (index: usize)
    ensures
        exploring ==> index == draw,
        !exploring ==> index == greedy_index,
{
    if exploring {
        draw
    } else {
        greedy_index
    }
}

/// The index of the next action: a uniformly drawn one while exploring,
/// otherwise the greedy choice of the network.
pub fn choose_action_index(exploring: bool, greedy_index: usize, action_count: usize) -> (index: usize)
    requires
        exploring ==> action_count > 0,
    ensures
        !exploring ==> index == greedy_index,
        exploring ==> index < action_count,
{
    if exploring {
        let draw = random_below(action_count);
        pick_action_index(true, greedy_index, draw)
    } else {
        pick_action_index(false, greedy_index, 0)
    }
}

/// Epsilon-greedy choice: while exploring the chosen index is the random draw
/// whatever the network prefers, so two choices that differ only in the greedy
/// index agree; otherwise it is the greedy index whatever was drawn.
pub proof fn lemma_pick_action_index(greedy_a: usize, greedy_b: usize, draw_a: usize, draw_b: usize, a: usize, b: usize)
    requires
        call_ensures(pick_action_index, (true, greedy_a, draw_a), a),
        call_ensures(pick_action_index, (true, greedy_b, draw_a), b),
    ensures
        a == b,
        a == draw_a,
{
}

/// What carrying out an action does to a company.
#[derive(PartialEq, Eq, Structural, Clone, Copy, Debug)]
pub enum ActionEffect {
    /// Nothing changes.
    Idle,
    /// Pay the processor price and add a processor running this recipe.
    BuyProcessor(usize),
    /// Remove the processor at this position of the company's processor list.
    SellProcessor(usize),
    /// Place a buy order for this resource id and amount, at the best offer price.
    PlaceOrder(usize, usize),
    /// Place a sell offer for this resource id, for at most this amount, at the
    /// best order price.
    PlaceOffer(usize, usize),
}

/// Position of the first processor running `recipe`.
pub open spec fn is_first_with_recipe(processor_recipes: Seq<usize>, recipe: usize, index: int) -> bool {
    &&& 0 <= index < processor_recipes.len()
    &&& processor_recipes[index] == recipe
    &&& forall|j: int| 0 <= j < index ==> processor_recipes[j] != recipe
}

/// What an action amounts to for a company whose processors run
/// `processor_recipes`, in an economy with `recipe_count` recipes and the
/// resources `sorted_resource_ids` (ascending). `can_afford_processor` says
/// whether the company's money covers the processor price.
pub open spec fn spec_action_effect(
    action: CompanyActionEnum,
    recipe_count: nat,
    sorted_resource_ids: Seq<usize>,
    processor_recipes: Seq<usize>,
    can_afford_processor: bool,
    effect: ActionEffect,
) -> bool {
    match action {
        CompanyActionEnum::Nothing => effect == ActionEffect::Idle,
        CompanyActionEnum::BuyProcessor(r) => if r < recipe_count && can_afford_processor {
            effect == ActionEffect::BuyProcessor(r)
        } else {
            effect == ActionEffect::Idle
        },
        CompanyActionEnum::SellProcessor(r) => if r < recipe_count && exists|i: int|
            0 <= i < processor_recipes.len() && #[trigger] processor_recipes[i] == r {
            match effect {
                ActionEffect::SellProcessor(i) => is_first_with_recipe(processor_recipes, r, i as int),
                _ => false,
            }
        } else {
            effect == ActionEffect::Idle
        },
        CompanyActionEnum::BuyResource(idx, amount) => if idx < sorted_resource_ids.len() {
            effect == ActionEffect::PlaceOrder(sorted_resource_ids[idx as int], amount)
        } else {
            effect == ActionEffect::Idle
        },
        CompanyActionEnum::SellResource(idx, amount) => if idx < sorted_resource_ids.len() {
            effect == ActionEffect::PlaceOffer(sorted_resource_ids[idx as int], amount)
        } else {
            effect == ActionEffect::Idle
        },
    }
}

fn first_with_recipe(processor_recipes: &Vec<usize>, recipe: usize) -> (index: Option<usize>)
    ensures
        match index {
            None => forall|i: int|
                0 <= i < processor_recipes@.len() ==> #[trigger] processor_recipes@[i] != recipe,
            Some(i) => is_first_with_recipe(processor_recipes@, recipe, i as int),
        },
{
    for i in 0..processor_recipes.len()
        invariant
            forall|j: int| 0 <= j < i ==> #[trigger] processor_recipes@[j] != recipe,
    {
        if processor_recipes[i] == recipe {
            return Some(i);
        }
    }
    None
}

/// Works out what `action` does for a company (see `spec_action_effect`).
pub fn resolve_action(
    action: CompanyActionEnum,
    recipe_count: usize,
    sorted_resource_ids: &Vec<usize>,
    processor_recipes: &Vec<usize>,
    can_afford_processor: bool,
) -> (effect: ActionEffect)
    ensures
        spec_action_effect(
            action,
            recipe_count as nat,
            sorted_resource_ids@,
            processor_recipes@,
            can_afford_processor,
            effect,
        ),
{
    match action {
        CompanyActionEnum::Nothing => ActionEffect::Idle,
        CompanyActionEnum::BuyProcessor(r) => {
            if r < recipe_count && can_afford_processor {
                ActionEffect::BuyProcessor(r)
            } else {
                ActionEffect::Idle
            }
        },
        CompanyActionEnum::SellProcessor(r) => {
            if r < recipe_count {
                match first_with_recipe(processor_recipes, r) {
                    Some(i) => ActionEffect::SellProcessor(i),
                    None => ActionEffect::Idle,
                }
            } else {
                ActionEffect::Idle
            }
        },
        CompanyActionEnum::BuyResource(idx, amount) => {
            if idx < sorted_resource_ids.len() {
                ActionEffect::PlaceOrder(sorted_resource_ids[idx], amount)
            } else {
                ActionEffect::Idle
            }
        },
        CompanyActionEnum::SellResource(idx, amount) => {
            if idx < sorted_resource_ids.len() {
                ActionEffect::PlaceOffer(sorted_resource_ids[idx], amount)
            } else {
                ActionEffect::Idle
            }
        },
    }
}

/// Selling the processor that `resolve_action` picks for recipe `recipe`
/// lowers that recipe's processor count by one and leaves every other
/// recipe's count as it was.
pub proof fn lemma_sell_processor_counts(processor_recipes: Seq<usize>, recipe: usize, index: int, other: usize)
    requires
        is_first_with_recipe(processor_recipes, recipe, index),
    ensures
        spec_count(processor_recipes.remove(index), recipe) + 1 == spec_count(processor_recipes, recipe),
        other != recipe ==> spec_count(processor_recipes.remove(index), other) == spec_count(
            processor_recipes,
            other,
        ),
{
    broadcast use vstd::multiset::group_multiset_axioms;
    vstd::seq_lib::to_multiset_remove(processor_recipes, index);
    vstd::seq_lib::to_multiset_contains(processor_recipes, recipe);
    assert(processor_recipes.contains(recipe));
}

/// Buying a processor for recipe `recipe` raises that recipe's processor
/// count by one and leaves every other recipe's count as it was.
pub proof fn lemma_buy_processor_counts(processor_recipes: Seq<usize>, recipe: usize, other: usize)
    ensures
        spec_count(processor_recipes.push(recipe), recipe) == spec_count(processor_recipes, recipe) + 1,
        other != recipe ==> spec_count(processor_recipes.push(recipe), other) == spec_count(
            processor_recipes,
            other,
        ),
{
    broadcast use vstd::multiset::group_multiset_axioms;
    vstd::seq_lib::to_multiset_build(processor_recipes, recipe);
}

/// What each action does, stated on its own terms: `Nothing` does nothing; a
/// processor is bought exactly when its recipe exists and the company can
/// afford it; a processor is sold exactly when its recipe exists and the
/// company runs it, and then the first processor running that recipe goes;
/// the n-th resource action trades the n-th smallest resource id, for the
/// action's amount.
pub proof fn lemma_action_effect(
    action: CompanyActionEnum,
    recipe_count: nat,
    sorted_resource_ids: Seq<usize>,
    processor_recipes: Seq<usize>,
    can_afford_processor: bool,
    effect: ActionEffect,
)
    requires
        spec_action_effect(
            action,
            recipe_count,
            sorted_resource_ids,
            processor_recipes,
            can_afford_processor,
            effect,
        ),
    ensures
        action == CompanyActionEnum::Nothing ==> effect == ActionEffect::Idle,
        forall|r: usize|
            action == CompanyActionEnum::BuyProcessor(r) ==> (effect == ActionEffect::BuyProcessor(r)
                <==> r < recipe_count && can_afford_processor) && (effect == ActionEffect::BuyProcessor(r)
                || effect == ActionEffect::Idle),
        forall|r: usize, i: int|
            action == CompanyActionEnum::SellProcessor(r) && r < recipe_count && 0 <= i
                < processor_recipes.len() && processor_recipes[i] == r && (forall|j: int|
                0 <= j < i ==> processor_recipes[j] != r) ==> effect == ActionEffect::SellProcessor(
                i as usize,
            ),
        forall|r: usize|
            action == CompanyActionEnum::SellProcessor(r) && (r >= recipe_count || forall|i: int|
                0 <= i < processor_recipes.len() ==> processor_recipes[i] != r) ==> effect
                == ActionEffect::Idle,
        forall|n: usize, amount: usize|
            action == CompanyActionEnum::BuyResource(n, amount) ==> if n < sorted_resource_ids.len() {
                effect == ActionEffect::PlaceOrder(sorted_resource_ids[n as int], amount)
            } else {
                effect == ActionEffect::Idle
            },
        forall|n: usize, amount: usize|
            action == CompanyActionEnum::SellResource(n, amount) ==> if n < sorted_resource_ids.len() {
                effect == ActionEffect::PlaceOffer(sorted_resource_ids[n as int], amount)
            } else {
                effect == ActionEffect::Idle
            },
{
    match action {
        CompanyActionEnum::SellProcessor(r) => {
            if r < recipe_count && exists|i: int|
                0 <= i < processor_recipes.len() && #[trigger] processor_recipes[i] == r {
                match effect {
                    ActionEffect::SellProcessor(k) => {
                        assert forall|i: int|
                            0 <= i < processor_recipes.len() && processor_recipes[i] == r && (forall|
                                j: int,
                            |
                                0 <= j < i ==> processor_recipes[j] != r) implies effect
                            == ActionEffect::SellProcessor(i as usize) by {
                            if i < k {
                            } else if k < i {
                                assert(processor_recipes[k as int] == r);
                            }
                        }
                    },
                    _ => {},
                }
            } else {
                assert forall|i: int|
                    0 <= i < processor_recipes.len() && processor_recipes[i] == r && r < recipe_count
                        implies false by {
                    assert(processor_recipes[i] == r);
                }
            }
        },
        _ => {},
    }
}

} // verus!
