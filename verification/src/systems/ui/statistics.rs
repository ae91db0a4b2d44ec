use crate::resources::sim_history::MAX_SUPPLY_DEMAND_SNAPSHOTS;
use vstd::prelude::*;

verus! {

/// Number of colours in the resource palette.
pub const PALETTE_SIZE: usize = 4;

/// The palette colour (red, green, blue) of slot `slot`: blue, brown, green, grey.
pub open spec fn spec_palette(slot: nat) -> (u8, u8, u8) {
    if slot == 0 {
        (100, 180, 255)
    } else if slot == 1 {
        (160, 120, 60)
    } else if slot == 2 {
        (80, 180, 80)
    } else {
        (160, 160, 160)
    }
}

/// Plot colour of a resource: the palette is cycled by resource id.
pub fn resource_color(id: usize) -> (rgb: (u8, u8, u8))
    ensures
        rgb == spec_palette((id % PALETTE_SIZE) as nat),
{
    let slot = id % PALETTE_SIZE;
    if slot == 0 {
        (100, 180, 255)
    } else if slot == 1 {
        (160, 120, 60)
    } else if slot == 2 {
        (80, 180, 80)
    } else {
        (160, 160, 160)
    }
}

/// Widget state of the marketplace dashboard: the resource whose supply and
/// demand curves are shown, and how many past ticks are ghosted behind them.
pub struct MarketUiState {
    pub selected_resource: usize,
    pub history_depth: usize,
}

impl Default for MarketUiState {
    fn default() -> (state: Self)
        ensures
            state.selected_resource == 0,
            state.history_depth == 5,
    {
        MarketUiState { selected_resource: 0, history_depth: 5 }
    }
}

/// Deepest history that can be shown when `available` snapshots are kept.
pub open spec fn spec_max_history_depth(available: nat) -> nat {
    let below = if available > 0 { (available - 1) as nat } else { 0 };
    if below < MAX_SUPPLY_DEMAND_SNAPSHOTS - 1 {
        below
    } else {
        (MAX_SUPPLY_DEMAND_SNAPSHOTS - 1) as nat
    }
}

/// The history slider never reaches past the snapshots that exist: with
/// `available` snapshots it goes up to `available - 1` past ticks, and never
/// beyond the `MAX_SUPPLY_DEMAND_SNAPSHOTS - 1` that are ever kept.
pub proof fn lemma_max_history_depth(available: nat)
    ensures
        available == 0 ==> spec_max_history_depth(available) == 0,
        available > 0 ==> spec_max_history_depth(available) < available,
        available > 0 ==> spec_max_history_depth(available) + 1 == if available
            < MAX_SUPPLY_DEMAND_SNAPSHOTS {
            available
        } else {
            MAX_SUPPLY_DEMAND_SNAPSHOTS as nat
        },
{
}

/// The palette, colour by colour: blue, brown, green, grey.
pub proof fn lemma_palette()
    ensures
        spec_palette(0) == (100u8, 180u8, 255u8),
        spec_palette(1) == (160u8, 120u8, 60u8),
        spec_palette(2) == (80u8, 180u8, 80u8),
        spec_palette(3) == (160u8, 160u8, 160u8),
{
}

impl MarketUiState {
    /// Keeps the selection on one of `resource_count` resources.
    pub fn clamp_selection(&mut self, resource_count: usize)
        requires
            resource_count > 0,
        ensures
            final(self).selected_resource == if old(self).selected_resource < resource_count {
                old(self).selected_resource
            } else {
                (resource_count - 1) as usize
            },
            final(self).history_depth == old(self).history_depth,
    {
        if self.selected_resource > resource_count - 1 {
            self.selected_resource = resource_count - 1;
        }
    }

    /// Limits the history depth to what `available` snapshots allow; returns
    /// that limit (the top of the depth slider).
    pub fn clamp_history_depth(&mut self, available: usize) -> (max_depth: usize)
        ensures
            max_depth == spec_max_history_depth(available as nat),
            available == 0 ==> max_depth == 0,
            0 < available <= MAX_SUPPLY_DEMAND_SNAPSHOTS ==> max_depth == available - 1,
            available >= MAX_SUPPLY_DEMAND_SNAPSHOTS ==> max_depth == MAX_SUPPLY_DEMAND_SNAPSHOTS - 1,
            final(self).history_depth == if old(self).history_depth < max_depth {
                old(self).history_depth
            } else {
                max_depth
            },
            final(self).selected_resource == old(self).selected_resource,
    {
        let below = if available > 0 { available - 1 } else { 0 };
        let max_depth = if below < MAX_SUPPLY_DEMAND_SNAPSHOTS - 1 {
            below
        } else {
            MAX_SUPPLY_DEMAND_SNAPSHOTS - 1
        };
        if self.history_depth > max_depth {
            self.history_depth = max_depth;
        }
        max_depth
    }

    /// The snapshots to draw out of `available` (oldest first): the current
    /// one and up to `history_depth` before it. Returns (first index, count).
    pub fn visible_window(&self, available: usize) -> (window: (usize, usize))
        ensures
            window.1 == if self.history_depth + 1 < available {
                self.history_depth + 1
            } else {
                available as int
            },
            window.0 + window.1 == available,
    {
        let show_count = if available > 0 && self.history_depth < available - 1 {
            self.history_depth + 1
        } else {
            available
        };
        (available - show_count, show_count)
    }
}

} // verus!
