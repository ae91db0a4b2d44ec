pub mod common;
pub mod marketplace;
pub mod resources;
