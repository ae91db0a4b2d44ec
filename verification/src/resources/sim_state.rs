use vstd::prelude::*;

verus! {

/// Playback state of the simulation. A company to remove is named by its
/// entity id.
pub struct SimState {
    pub paused: bool,
    pub step_requested: bool,
    pub reset_requested: bool,
    pub spawn_company_requested: bool,
    pub remove_company_requested: Option<u64>,
    /// Automatically reset after this many ticks. 0 = disabled.
    pub auto_reset_interval: u32,
    pub tick_count: u32,
}

impl Default for SimState {
    /// Paused, nothing requested, resetting every 200 ticks.
    fn default() -> (state: Self)
        ensures
            state.paused,
            !state.step_requested,
            !state.reset_requested,
            !state.spawn_company_requested,
            state.remove_company_requested is None,
            state.auto_reset_interval == 200,
            state.tick_count == 0,
    {
        SimState {
            paused: true,
            step_requested: false,
            reset_requested: false,
            spawn_company_requested: false,
            remove_company_requested: None,
            auto_reset_interval: 200,
            tick_count: 0,
        }
    }
}

} // verus!
