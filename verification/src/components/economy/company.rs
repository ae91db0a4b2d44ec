use vstd::prelude::*;

verus! {

/// Tags the entities that are companies (as opposed to producers and consumers).
pub struct CompanyMarker();

} // verus!
