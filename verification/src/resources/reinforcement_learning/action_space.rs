use vstd::prelude::*;

verus! {

/// Number of discrete quantity tiers available for buy/sell orders.
pub const TRADE_TIERS: usize = 4;

/// Quantity of the given tier: 10, 100, 1 000 or 10 000 units.
pub open spec fn spec_trade_amount(tier: int) -> usize {
    if tier == 0 {
        10
    } else if tier == 1 {
        100
    } else if tier == 2 {
        1_000
    } else {
        10_000
    }
}

/// Quantity of a trade tier; one action is generated per resource per tier for
/// both buying and selling.
pub fn trade_amount(tier: usize) -> (amount: usize)
    requires
        tier < TRADE_TIERS,
    ensures
        amount == spec_trade_amount(tier as int),
{
    if tier == 0 {
        10
    } else if tier == 1 {
        100
    } else if tier == 2 {
        1_000
    } else {
        10_000
    }
}

/// One discrete decision a company can take in a tick.
#[derive(PartialEq, Eq, Structural, Hash, Clone, Copy, Debug)]
pub enum CompanyActionEnum {
    Nothing,
    /// Buy a processor running the recipe with this id.
    BuyProcessor(usize),
    /// Sell a processor running the recipe with this id.
    SellProcessor(usize),
    /// Place a buy order: (resource index, amount).
    BuyResource(usize, usize),
    /// Place a sell offer: (resource index, amount).
    SellResource(usize, usize),
}

/// Number of actions for the given numbers of resources and recipes.
pub open spec fn spec_action_count(resource_count: nat, recipe_count: nat) -> nat {
    1 + 2 * recipe_count + 8 * resource_count
}

/// The action that stands at position `index` of the action space: first
/// `Nothing`, then one `BuyProcessor` and one `SellProcessor` per recipe, then
/// for each resource and each tier a `BuyResource` followed by a `SellResource`.
pub open spec fn spec_action_at(resource_count: nat, recipe_count: nat, index: int) -> CompanyActionEnum {
    if index == 0 {
        CompanyActionEnum::Nothing
    } else if index <= recipe_count {
        CompanyActionEnum::BuyProcessor((index - 1) as usize)
    } else if index <= 2 * recipe_count {
        CompanyActionEnum::SellProcessor((index - 1 - recipe_count) as usize)
    } else {
        let k = index - 1 - 2 * recipe_count;
        let resource = (k / 8) as usize;
        let amount = spec_trade_amount((k % 8) / 2);
        if k % 2 == 0 {
            CompanyActionEnum::BuyResource(resource, amount)
        } else {
            CompanyActionEnum::SellResource(resource, amount)
        }
    }
}

/// The whole action space as a sequence.
pub open spec fn spec_action_space(resource_count: nat, recipe_count: nat) -> Seq<CompanyActionEnum> {
    Seq::new(
        spec_action_count(resource_count, recipe_count),
        |i: int| spec_action_at(resource_count, recipe_count, i),
    )
}

/// The discrete actions available to every company, indexed by the output
/// neurons of its Q-network.
pub struct ActionSpace {
    pub actions: Vec<CompanyActionEnum>,
}

impl Default for ActionSpace {
    fn default() -> (space: Self)
        ensures
            space.actions@.len() == 0,
    {
        ActionSpace { actions: Vec::new() }
    }
}

proof fn lemma_decode_resource_slot(resource: int, tier: int)
    by (nonlinear_arith)
    requires
        0 <= resource,
        0 <= tier < 4,
    ensures
        (8 * resource + 2 * tier) / 8 == resource,
        ((8 * resource + 2 * tier) % 8) / 2 == tier,
        (8 * resource + 2 * tier) % 2 == 0,
        (8 * resource + 2 * tier + 1) / 8 == resource,
        ((8 * resource + 2 * tier + 1) % 8) / 2 == tier,
        (8 * resource + 2 * tier + 1) % 2 == 1,
{
}


/// Whether `action` is one of the actions offered for `resource_count`
/// resources and `recipe_count` recipes.
pub open spec fn spec_valid_action(resource_count: nat, recipe_count: nat, action: CompanyActionEnum) -> bool {
    match action {
        CompanyActionEnum::Nothing => true,
        CompanyActionEnum::BuyProcessor(r) => r < recipe_count,
        CompanyActionEnum::SellProcessor(r) => r < recipe_count,
        CompanyActionEnum::BuyResource(r, a) => r < resource_count && exists|t: int|
            0 <= t < 4 && #[trigger] spec_trade_amount(t) == a,
        CompanyActionEnum::SellResource(r, a) => r < resource_count && exists|t: int|
            0 <= t < 4 && #[trigger] spec_trade_amount(t) == a,
    }
}

/// Tier of a trade amount (the inverse of `spec_trade_amount` on the four tiers).
pub open spec fn spec_tier_of(amount: usize) -> int {
    if amount == 10 {
        0
    } else if amount == 100 {
        1
    } else if amount == 1_000 {
        2
    } else {
        3
    }
}

/// Position of a valid action in the action space.
pub open spec fn spec_action_index(resource_count: nat, recipe_count: nat, action: CompanyActionEnum) -> int {
    match action {
        CompanyActionEnum::Nothing => 0,
        CompanyActionEnum::BuyProcessor(r) => 1 + r,
        CompanyActionEnum::SellProcessor(r) => 1 + recipe_count + r,
        CompanyActionEnum::BuyResource(r, a) => 1 + 2 * recipe_count + 8 * r + 2 * spec_tier_of(a),
        CompanyActionEnum::SellResource(r, a) => 1 + 2 * recipe_count + 8 * r + 2 * spec_tier_of(a) + 1,
    }
}

proof fn lemma_slot_injective(k1: int, k2: int)
    by (nonlinear_arith)
    requires
        0 <= k1,
        0 <= k2,
        k1 / 8 == k2 / 8,
        (k1 % 8) / 2 == (k2 % 8) / 2,
        k1 % 2 == k2 % 2,
    ensures
        k1 == k2,
{
}

proof fn lemma_slot_tier_bound(k: int, resource_count: int)
    by (nonlinear_arith)
    requires
        0 <= k < 8 * resource_count,
    ensures
        0 <= (k % 8) / 2 < 4,
        0 <= k / 8 < resource_count,
{
}

/// No two positions of the action space hold the same action, so a network
/// output index identifies exactly one decision.
pub proof fn lemma_actions_distinct(resource_count: usize, recipe_count: usize, i: int, j: int)
    requires
        0 <= i < spec_action_count(resource_count as nat, recipe_count as nat),
        0 <= j < spec_action_count(resource_count as nat, recipe_count as nat),
        i != j,
    ensures
        spec_action_at(resource_count as nat, recipe_count as nat, i) != spec_action_at(
            resource_count as nat,
            recipe_count as nat,
            j,
        ),
{
    let pc = recipe_count as int;
    if i > 2 * pc && j > 2 * pc {
        let ki = i - 1 - 2 * pc;
        let kj = j - 1 - 2 * pc;
        lemma_slot_tier_bound(ki, resource_count as int);
        lemma_slot_tier_bound(kj, resource_count as int);
        if spec_action_at(resource_count as nat, recipe_count as nat, i) == spec_action_at(
            resource_count as nat,
            recipe_count as nat,
            j,
        ) {
            assert(ki % 2 == kj % 2);
            assert(ki / 8 == kj / 8);
            assert((ki % 8) / 2 == (kj % 8) / 2);
            lemma_slot_injective(ki, kj);
        }
    }
}

/// Every valid action stands in the action space, at the position given by
/// `spec_action_index`.
pub proof fn lemma_action_index(resource_count: nat, recipe_count: nat, action: CompanyActionEnum)
    requires
        spec_valid_action(resource_count, recipe_count, action),
    ensures
        0 <= spec_action_index(resource_count, recipe_count, action) < spec_action_count(resource_count, recipe_count),
        spec_action_at(resource_count, recipe_count, spec_action_index(resource_count, recipe_count, action)) == action,
{
    match action {
        CompanyActionEnum::BuyResource(r, a) => {
            let t = choose|t: int| 0 <= t < 4 && #[trigger] spec_trade_amount(t) == a;
            assert(spec_tier_of(a) == t);
            lemma_decode_resource_slot(r as int, t);
            assert(8 * r + 2 * t + 2 <= 8 * resource_count) by (nonlinear_arith)
                requires r < resource_count, 0 <= t < 4;
        },
        CompanyActionEnum::SellResource(r, a) => {
            let t = choose|t: int| 0 <= t < 4 && #[trigger] spec_trade_amount(t) == a;
            assert(spec_tier_of(a) == t);
            lemma_decode_resource_slot(r as int, t);
            assert(8 * r + 2 * t + 2 <= 8 * resource_count) by (nonlinear_arith)
                requires r < resource_count, 0 <= t < 4;
        },
        _ => {},
    }
}

impl ActionSpace {
    /// Builds the action space for `resource_count` resources and
    /// `recipe_count` recipes.
    pub fn new(resource_count: usize, recipe_count: usize) -> (space: ActionSpace)
        ensures
            space.actions@ == spec_action_space(resource_count as nat, recipe_count as nat),
    {
        let ghost rc = resource_count as nat;
        let ghost pc = recipe_count as nat;
        let mut actionspace: Vec<CompanyActionEnum> = Vec::new();
        actionspace.push(CompanyActionEnum::Nothing);
        for i in 0..recipe_count
            invariant
                pc == recipe_count,
                actionspace@.len() == 1 + i,
                forall|j: int| 0 <= j < actionspace@.len() ==> #[trigger] actionspace@[j] == spec_action_at(rc, pc, j),
        {
            actionspace.push(CompanyActionEnum::BuyProcessor(i));
        }
        for i in 0..recipe_count
            invariant
                pc == recipe_count,
                actionspace@.len() == 1 + recipe_count + i,
                forall|j: int| 0 <= j < actionspace@.len() ==> #[trigger] actionspace@[j] == spec_action_at(rc, pc, j),
        {
            actionspace.push(CompanyActionEnum::SellProcessor(i));
        }
        for i in 0..resource_count
            invariant
                actionspace@.len() == 1 + 2 * pc + 8 * i,
                forall|j: int| 0 <= j < actionspace@.len() ==> #[trigger] actionspace@[j] == spec_action_at(rc, pc, j),
        {
            for tier in 0..TRADE_TIERS
                invariant
                    i < resource_count,
                    actionspace@.len() == 1 + 2 * pc + 8 * i + 2 * tier,
                    forall|j: int| 0 <= j < actionspace@.len() ==> #[trigger] actionspace@[j] == spec_action_at(rc, pc, j),
            {
                let amount = trade_amount(tier);
                proof {
                    lemma_decode_resource_slot(i as int, tier as int);
                }
                actionspace.push(CompanyActionEnum::BuyResource(i, amount));
                actionspace.push(CompanyActionEnum::SellResource(i, amount));
            }
        }
        assert(actionspace@ =~= spec_action_space(rc, pc));
        ActionSpace { actions: actionspace }
    }
}

} // verus!
