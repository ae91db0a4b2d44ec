use econosim_bevy::resources::reinforcement_learning::action_space::CompanyActionEnum;
use econosim_bevy::resources::reinforcement_learning::q_networks::TrainingSteps;
use econosim_bevy::systems::reinforcement_learning::company_controller::{
    choose_action_index, processor_counts, resolve_action, sorted_ids, state_size, ActionEffect,
};

#[test]
fn ids_come_out_ascending() {
    assert_eq!(sorted_ids(vec![5, 1, 4, 1, 0]), vec![0, 1, 1, 4, 5]);
    assert_eq!(sorted_ids(vec![]), Vec::<usize>::new());
}

#[test]
fn processors_counted_per_recipe() {
    let processors = vec![2, 0, 2, 2];
    let (ids, counts) = processor_counts(&processors, vec![2, 1, 0]);
    assert_eq!(ids, vec![0, 1, 2]);
    assert_eq!(counts, vec![1, 0, 3]);
}

#[test]
fn observation_size() {
    assert_eq!(state_size(24, 17), 1 + 3 * 24 + 17);
    assert_eq!(state_size(0, 0), 1);
}

#[test]
fn greedy_or_random_choice() {
    assert_eq!(choose_action_index(false, 7, 3), 7);
    for _ in 0..100 {
        assert!(choose_action_index(true, 999, 5) < 5);
    }
}

#[test]
fn action_effects() {
    let resources = vec![0, 1, 2];
    let processors = vec![4, 1, 1];
    let resolve =
        |a, afford| resolve_action(a, 3, &resources, &processors, afford);
    assert_eq!(resolve(CompanyActionEnum::Nothing, true), ActionEffect::Idle);
    assert_eq!(resolve(CompanyActionEnum::BuyProcessor(2), true), ActionEffect::BuyProcessor(2));
    assert_eq!(resolve(CompanyActionEnum::BuyProcessor(2), false), ActionEffect::Idle);
    assert_eq!(resolve(CompanyActionEnum::BuyProcessor(3), true), ActionEffect::Idle);
    assert_eq!(resolve(CompanyActionEnum::SellProcessor(1), true), ActionEffect::SellProcessor(1));
    assert_eq!(resolve(CompanyActionEnum::SellProcessor(2), true), ActionEffect::Idle);
    assert_eq!(resolve(CompanyActionEnum::BuyResource(2, 100), true), ActionEffect::PlaceOrder(2, 100));
    assert_eq!(resolve(CompanyActionEnum::SellResource(1, 10), true), ActionEffect::PlaceOffer(1, 10));
    assert_eq!(resolve(CompanyActionEnum::SellResource(3, 10), true), ActionEffect::Idle);
}

#[test]
fn target_refreshed_every_twenty_steps() {
    let mut counter = TrainingSteps::new();
    let refreshes: Vec<u32> = (1..=60).filter(|_| counter.record_step()).collect();
    assert_eq!(refreshes, vec![20, 40, 60]);
    assert_eq!(counter.steps, 60);
}

#[test]
fn selling_and_buying_processors_moves_one_count() {
    let recipes = vec![0, 1, 2];
    let mut processors = vec![1, 2, 1];
    let (_, before) = processor_counts(&processors, recipes.clone());
    assert_eq!(before, vec![0, 2, 1]);
    match resolve_action(CompanyActionEnum::SellProcessor(1), 3, &vec![], &processors, false) {
        ActionEffect::SellProcessor(position) => {
            processors.remove(position);
        }
        other => panic!("unexpected effect {:?}", other),
    }
    let (_, after_sale) = processor_counts(&processors, recipes.clone());
    assert_eq!(after_sale, vec![0, 1, 1]);
    match resolve_action(CompanyActionEnum::BuyProcessor(0), 3, &vec![], &processors, true) {
        ActionEffect::BuyProcessor(recipe) => processors.push(recipe),
        other => panic!("unexpected effect {:?}", other),
    }
    let (_, after_purchase) = processor_counts(&processors, recipes);
    assert_eq!(after_purchase, vec![1, 1, 1]);
}
