use vstd::prelude::*;

verus! {

/// Identifier of a resource or recipe.
pub type Id = usize;

/// The currency the economy trades in.
pub struct Currency {
    pub name: String,
    pub unit: char,
}

} // verus!
