pub mod marketplace;
pub mod producer;
