pub mod economy;
pub mod reinforcement_learning;
pub mod save_state;
pub mod sim_history;
pub mod sim_state;
