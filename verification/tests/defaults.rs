use econosim_bevy::components::economy::resource::Resource;
use econosim_bevy::resources::economy::resources::{Resources, BUILDING_MATERIALS, IRON_ORE, WATER};
use econosim_bevy::resources::save_state::SaveLoadState;
use econosim_bevy::resources::sim_state::SimState;

#[test]
fn default_resources() {
    let r = Resources::default();
    assert_eq!(r.resources.len(), 24);
    assert_eq!(r.resources[&WATER], "Water");
    assert_eq!(r.resources[&IRON_ORE], "Iron Ore");
    assert_eq!(r.resources[&BUILDING_MATERIALS], "Building Materials");
    assert!(!r.resources.contains_key(&24));
}

#[test]
fn default_resource() {
    let r = Resource::default();
    assert_eq!(r.id, 0);
    assert_eq!(r.name.0, "Unnamed Resource");
}

#[test]
fn default_save_state() {
    let s = SaveLoadState::default();
    assert_eq!(s.name, "default");
    assert!(!s.save_requested && !s.load_requested);
}

#[test]
fn default_sim_state() {
    let s = SimState::default();
    assert!(s.paused);
    assert!(!s.step_requested && !s.reset_requested && !s.spawn_company_requested);
    assert_eq!(s.remove_company_requested, None);
    assert_eq!(s.auto_reset_interval, 200);
    assert_eq!(s.tick_count, 0);
}
