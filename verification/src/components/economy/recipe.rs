use crate::resources::economy::common::Id;
use vstd::prelude::*;

verus! {

/// The recipe a processor runs, by recipe id.
pub struct Recipe(pub Id);

} // verus!
