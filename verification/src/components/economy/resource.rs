use crate::components::common::Name;
use crate::resources::economy::common::Id;
use vstd::prelude::*;

verus! {

/// A tradeable good.
pub struct Resource {
    pub id: Id,
    pub name: Name,
}

impl Default for Resource {
    fn default() -> (resource: Self)
        ensures
            resource.id == 0,
            resource.name.0@ == "Unnamed Resource"@,
    {
        Resource { id: 0, name: Name(String::from_str("Unnamed Resource")) }
    }
}

} // verus!
