use crate::resources::economy::common::Id;
use std::collections::HashMap;
use vstd::prelude::*;

verus! {

pub type ResourceHandle = usize;

// Stable resource ids. Raw materials (supplied by producers):
pub const WATER: Id = 0;
pub const DIRT: Id = 1;
pub const WOOD: Id = 2;
pub const COAL: Id = 3;
pub const IRON_ORE: Id = 4;
pub const SAND: Id = 5;
pub const STONE: Id = 6;
pub const CRUDE_OIL: Id = 7;
// Intermediates (produced by recipes from raws):
pub const PLANKS: Id = 8;
pub const CHARCOAL: Id = 9;
pub const IRON: Id = 10;
pub const STEEL: Id = 11;
pub const GLASS: Id = 12;
pub const BRICKS: Id = 13;
pub const CONCRETE: Id = 14;
pub const WHEAT: Id = 15;
pub const FLOUR: Id = 16;
pub const PLASTIC: Id = 17;
pub const TOOLS: Id = 18;
// Finished goods (bought by consumers):
pub const FURNITURE: Id = 19;
pub const MACHINERY: Id = 20;
pub const BREAD: Id = 21;
pub const BOTTLES: Id = 22;
pub const BUILDING_MATERIALS: Id = 23;

/// Number of resources in the default economy.
pub const RESOURCE_COUNT: usize = 24;

/// Display name of each resource of the default economy.
pub open spec fn spec_resource_name(id: Id) -> Seq<char> {
    if id == WATER { "Water"@ }
    else if id == DIRT { "Dirt"@ }
    else if id == WOOD { "Wood"@ }
    else if id == COAL { "Coal"@ }
    else if id == IRON_ORE { "Iron Ore"@ }
    else if id == SAND { "Sand"@ }
    else if id == STONE { "Stone"@ }
    else if id == CRUDE_OIL { "Crude Oil"@ }
    else if id == PLANKS { "Planks"@ }
    else if id == CHARCOAL { "Charcoal"@ }
    else if id == IRON { "Iron"@ }
    else if id == STEEL { "Steel"@ }
    else if id == GLASS { "Glass"@ }
    else if id == BRICKS { "Bricks"@ }
    else if id == CONCRETE { "Concrete"@ }
    else if id == WHEAT { "Wheat"@ }
    else if id == FLOUR { "Flour"@ }
    else if id == PLASTIC { "Plastic"@ }
    else if id == TOOLS { "Tools"@ }
    else if id == FURNITURE { "Furniture"@ }
    else if id == MACHINERY { "Machinery"@ }
    else if id == BREAD { "Bread"@ }
    else if id == BOTTLES { "Bottles"@ }
    else { "Building Materials"@ }
}

/// Each default resource is named after its constant.
pub proof fn lemma_resource_names()
    ensures
        spec_resource_name(WATER) == "Water"@,
        spec_resource_name(DIRT) == "Dirt"@,
        spec_resource_name(WOOD) == "Wood"@,
        spec_resource_name(COAL) == "Coal"@,
        spec_resource_name(IRON_ORE) == "Iron Ore"@,
        spec_resource_name(SAND) == "Sand"@,
        spec_resource_name(STONE) == "Stone"@,
        spec_resource_name(CRUDE_OIL) == "Crude Oil"@,
        spec_resource_name(PLANKS) == "Planks"@,
        spec_resource_name(CHARCOAL) == "Charcoal"@,
        spec_resource_name(IRON) == "Iron"@,
        spec_resource_name(STEEL) == "Steel"@,
        spec_resource_name(GLASS) == "Glass"@,
        spec_resource_name(BRICKS) == "Bricks"@,
        spec_resource_name(CONCRETE) == "Concrete"@,
        spec_resource_name(WHEAT) == "Wheat"@,
        spec_resource_name(FLOUR) == "Flour"@,
        spec_resource_name(PLASTIC) == "Plastic"@,
        spec_resource_name(TOOLS) == "Tools"@,
        spec_resource_name(FURNITURE) == "Furniture"@,
        spec_resource_name(MACHINERY) == "Machinery"@,
        spec_resource_name(BREAD) == "Bread"@,
        spec_resource_name(BOTTLES) == "Bottles"@,
        spec_resource_name(BUILDING_MATERIALS) == "Building Materials"@,
{
}

/// The resources of the economy: id to display name.
pub struct Resources {
    pub resources: HashMap<Id, String>,
}

impl Default for Resources {
    /// The default economy: the resources with ids 0 to 23 and their names.
    fn default() -> (r: Self)
        ensures
            forall|id: Id| #[trigger] r.resources@.contains_key(id) <==> id < RESOURCE_COUNT,
            forall|id: Id| id < RESOURCE_COUNT ==> (#[trigger] r.resources@[id])@ == spec_resource_name(id),
    {
        broadcast use vstd::std_specs::hash::group_hash_axioms;
        let mut resources: HashMap<Id, String> = HashMap::new();
        resources.insert(WATER, String::from_str("Water"));
        resources.insert(DIRT, String::from_str("Dirt"));
        resources.insert(WOOD, String::from_str("Wood"));
        resources.insert(COAL, String::from_str("Coal"));
        resources.insert(IRON_ORE, String::from_str("Iron Ore"));
        resources.insert(SAND, String::from_str("Sand"));
        resources.insert(STONE, String::from_str("Stone"));
        resources.insert(CRUDE_OIL, String::from_str("Crude Oil"));
        resources.insert(PLANKS, String::from_str("Planks"));
        resources.insert(CHARCOAL, String::from_str("Charcoal"));
        resources.insert(IRON, String::from_str("Iron"));
        resources.insert(STEEL, String::from_str("Steel"));
        resources.insert(GLASS, String::from_str("Glass"));
        resources.insert(BRICKS, String::from_str("Bricks"));
        resources.insert(CONCRETE, String::from_str("Concrete"));
        resources.insert(WHEAT, String::from_str("Wheat"));
        resources.insert(FLOUR, String::from_str("Flour"));
        resources.insert(PLASTIC, String::from_str("Plastic"));
        resources.insert(TOOLS, String::from_str("Tools"));
        resources.insert(FURNITURE, String::from_str("Furniture"));
        resources.insert(MACHINERY, String::from_str("Machinery"));
        resources.insert(BREAD, String::from_str("Bread"));
        resources.insert(BOTTLES, String::from_str("Bottles"));
        resources.insert(BUILDING_MATERIALS, String::from_str("Building Materials"));
        Resources { resources }
    }
}

} // verus!
