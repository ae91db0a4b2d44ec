pub mod dashboard;
pub mod statistics;
