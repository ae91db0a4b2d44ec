pub mod company;
pub mod producer;
pub mod recipe;
pub mod resource;
