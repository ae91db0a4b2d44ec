use vstd::prelude::*;

verus! {

/// Save/load requests from the dashboard and the name of the save slot.
pub struct SaveLoadState {
    pub name: String,
    pub save_requested: bool,
    pub load_requested: bool,
}

impl Default for SaveLoadState {
    fn default() -> (state: Self)
        ensures
            state.name@ == "default"@,
            !state.save_requested,
            !state.load_requested,
    {
        SaveLoadState {
            name: String::from_str("default"),
            save_requested: false,
            load_requested: false,
        }
    }
}

} // verus!
