use econosim_bevy::resources::economy::resources::Resources;
use econosim_bevy::resources::reinforcement_learning::action_space::ActionSpace;
use econosim_bevy::resources::reinforcement_learning::training_history::{
    push_capped, MAX_EPISODE_RETURNS,
};
use econosim_bevy::systems::ui::dashboard::{action_label, decimal, ACTION_HISTORY_CAP};
use econosim_bevy::systems::ui::statistics::{resource_color, MarketUiState};
use std::collections::{HashMap, VecDeque};

fn recipe_names() -> HashMap<usize, String> {
    let mut names = HashMap::new();
    names.insert(0, "Coal (synthetic)".to_string());
    names.insert(1, "Planks".to_string());
    names
}

#[test]
fn labels_of_every_kind_of_action() {
    let space = ActionSpace::new(2, 2);
    let resources = Resources::default().resources;
    let recipes = recipe_names();
    let label = |i| action_label(i, &space, &resources, &recipes);
    assert_eq!(label(0), "Idle");
    assert_eq!(label(1), "+Proc(Coal (synthetic))");
    assert_eq!(label(2), "+Proc(Planks)");
    assert_eq!(label(4), "-Proc(Planks)");
    assert_eq!(label(5), "Buy 10×Water");
    assert_eq!(label(6), "Sell 10×Water");
    assert_eq!(label(20), "Sell 10000×Dirt");
    assert_eq!(label(21), "?");
}

#[test]
fn labels_with_unknown_names() {
    let space = ActionSpace::new(1, 1);
    let empty = HashMap::new();
    assert_eq!(action_label(1, &space, &empty, &empty), "+Proc(?)");
    assert_eq!(action_label(9, &space, &empty, &empty), "Buy 10000×?");
}

#[test]
fn decimal_notation() {
    assert_eq!(decimal(0), "0");
    assert_eq!(decimal(7), "7");
    assert_eq!(decimal(10), "10");
    assert_eq!(decimal(1_000), "1000");
    assert_eq!(decimal(usize::MAX), usize::MAX.to_string());
}

#[test]
fn rolling_window_keeps_latest() {
    let mut window = VecDeque::new();
    for i in 0..10 {
        push_capped(&mut window, i, 3);
    }
    assert_eq!(window, VecDeque::from(vec![7, 8, 9]));
    let mut log: VecDeque<String> = VecDeque::new();
    for i in 0..(ACTION_HISTORY_CAP + 5) {
        push_capped(&mut log, i.to_string(), ACTION_HISTORY_CAP);
    }
    assert_eq!(log.len(), ACTION_HISTORY_CAP);
    assert_eq!(log.front().unwrap(), "5");
    assert_eq!(MAX_EPISODE_RETURNS, 1_000);
}

#[test]
fn episode_returns_window() {
    let mut returns: VecDeque<f64> = VecDeque::new();
    push_capped(&mut returns, 1.5, 2);
    push_capped(&mut returns, -2.0, 2);
    assert_eq!(returns, VecDeque::from(vec![1.5, -2.0]));
    push_capped(&mut returns, 4.0, 2);
    assert_eq!(returns, VecDeque::from(vec![-2.0, 4.0]));
}

#[test]
fn resource_palette_cycles() {
    assert_eq!(resource_color(0), (100, 180, 255));
    assert_eq!(resource_color(1), (160, 120, 60));
    assert_eq!(resource_color(2), (80, 180, 80));
    assert_eq!(resource_color(3), (160, 160, 160));
    assert_eq!(resource_color(5), (160, 120, 60));
}

#[test]
fn market_ui_clamps() {
    let mut state = MarketUiState::default();
    assert_eq!((state.selected_resource, state.history_depth), (0, 5));
    state.selected_resource = 30;
    state.clamp_selection(24);
    assert_eq!(state.selected_resource, 23);
    assert_eq!(state.clamp_history_depth(3), 2);
    assert_eq!(state.history_depth, 2);
    assert_eq!(state.visible_window(3), (0, 3));
    assert_eq!(state.visible_window(10), (7, 3));
    assert_eq!(state.clamp_history_depth(0), 0);
    assert_eq!(state.visible_window(0), (0, 0));
    let mut deep = MarketUiState { selected_resource: 0, history_depth: 100 };
    assert_eq!(deep.clamp_history_depth(200), 59);
    assert_eq!(deep.visible_window(200), (140, 60));
}
