pub mod common;
pub mod economy;
