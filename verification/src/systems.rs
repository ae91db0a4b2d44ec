pub mod common;
pub mod economy;
pub mod reinforcement_learning;
pub mod ui;
