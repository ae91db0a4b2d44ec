use econosim_bevy::resources::reinforcement_learning::action_space::{
    trade_amount, ActionSpace, CompanyActionEnum,
};
use std::collections::HashSet;

#[test]
fn action_space_size() {
    assert_eq!(ActionSpace::new(0, 0).actions.len(), 1);
    assert_eq!(ActionSpace::new(24, 17).actions.len(), 1 + 2 * 17 + 8 * 24);
    assert_eq!(ActionSpace::default().actions.len(), 0);
}

#[test]
fn action_space_layout() {
    let space = ActionSpace::new(2, 2);
    assert_eq!(
        space.actions,
        vec![
            CompanyActionEnum::Nothing,
            CompanyActionEnum::BuyProcessor(0),
            CompanyActionEnum::BuyProcessor(1),
            CompanyActionEnum::SellProcessor(0),
            CompanyActionEnum::SellProcessor(1),
            CompanyActionEnum::BuyResource(0, 10),
            CompanyActionEnum::SellResource(0, 10),
            CompanyActionEnum::BuyResource(0, 100),
            CompanyActionEnum::SellResource(0, 100),
            CompanyActionEnum::BuyResource(0, 1_000),
            CompanyActionEnum::SellResource(0, 1_000),
            CompanyActionEnum::BuyResource(0, 10_000),
            CompanyActionEnum::SellResource(0, 10_000),
            CompanyActionEnum::BuyResource(1, 10),
            CompanyActionEnum::SellResource(1, 10),
            CompanyActionEnum::BuyResource(1, 100),
            CompanyActionEnum::SellResource(1, 100),
            CompanyActionEnum::BuyResource(1, 1_000),
            CompanyActionEnum::SellResource(1, 1_000),
            CompanyActionEnum::BuyResource(1, 10_000),
            CompanyActionEnum::SellResource(1, 10_000),
        ]
    );
}

#[test]
fn actions_are_distinct() {
    let space = ActionSpace::new(24, 17);
    let set: HashSet<CompanyActionEnum> = space.actions.iter().copied().collect();
    assert_eq!(set.len(), space.actions.len());
}

#[test]
fn trade_tiers() {
    assert_eq!(
        (0..4).map(trade_amount).collect::<Vec<_>>(),
        vec![10, 100, 1_000, 10_000]
    );
}
