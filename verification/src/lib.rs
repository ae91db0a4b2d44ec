//! Verified core of an agent-based economy simulation: the discrete action
//! space of the learning companies, the market's offer/order selection, the
//! scheduling of producers and expiring listings, and the bookkeeping that the
//! dashboards read.
pub mod components;
pub mod resources;
pub mod systems;
