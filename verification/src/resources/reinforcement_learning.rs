pub mod action_space;
pub mod q_networks;
pub mod training_history;
