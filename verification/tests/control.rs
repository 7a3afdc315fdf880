use lorenz::control::{
    config_from_selector, AppAction, ConfigSlot, InputKey, LorenzConfig, SceneEffect, SceneModel,
};

#[test]
fn key_bindings() {
    assert_eq!(
        AppAction::from_key(InputKey::Key1),
        Some(AppAction::InitConfig(LorenzConfig::One))
    );
    assert_eq!(
        AppAction::from_key(InputKey::Key2),
        Some(AppAction::InitConfig(LorenzConfig::Two))
    );
    assert_eq!(AppAction::from_key(InputKey::H), Some(AppAction::ToggleHelp));
    assert_eq!(AppAction::from_key(InputKey::Equals), Some(AppAction::AddObj));
    assert_eq!(AppAction::from_key(InputKey::Minus), Some(AppAction::RemoveObj));
    assert_eq!(AppAction::from_key(InputKey::Other), None);
}

#[test]
fn selector_recognizes_exactly_one_and_two() {
    assert_eq!(config_from_selector(1), Some(LorenzConfig::One));
    assert_eq!(config_from_selector(2), Some(LorenzConfig::Two));
    assert_eq!(config_from_selector(0), None);
    assert_eq!(config_from_selector(3), None);
    assert_eq!(config_from_selector(-1), None);
}

#[test]
fn slot_starts_empty_and_drains() {
    let mut slot = ConfigSlot::new();
    assert_eq!(slot.take(), None);
    slot.post(LorenzConfig::One);
    assert_eq!(slot.take(), Some(LorenzConfig::One));
    assert_eq!(slot.take(), None);
}

#[test]
fn slot_last_write_wins() {
    let mut slot = ConfigSlot::new();
    slot.post(LorenzConfig::One);
    slot.post(LorenzConfig::Two);
    assert_eq!(slot.take(), Some(LorenzConfig::Two));
}

#[test]
fn submit_accepts_known_selectors() {
    let mut slot = ConfigSlot::new();
    assert!(slot.submit(1));
    assert_eq!(slot.take(), Some(LorenzConfig::One));
    assert!(slot.submit(2));
    assert_eq!(slot.take(), Some(LorenzConfig::Two));
}

#[test]
fn submit_rejects_unknown_selector_and_keeps_slot() {
    let mut slot = ConfigSlot::new();
    slot.post(LorenzConfig::One);
    assert!(!slot.submit(7));
    assert_eq!(slot.take(), Some(LorenzConfig::One));
    assert!(!slot.submit(0));
    assert_eq!(slot.take(), None);
}

#[test]
fn fresh_scene_shows_help_with_no_trajectories() {
    let m = SceneModel::new();
    assert_eq!(m.trajectories(), 0);
    assert!(m.show_help());
}

#[test]
fn init_config_replaces_trajectories() {
    let mut m = SceneModel::new();
    let e = m.apply(AppAction::InitConfig(LorenzConfig::One));
    assert_eq!(e, SceneEffect::Respawn(LorenzConfig::One));
    assert_eq!(m.trajectories(), 1);
    let e = m.apply(AppAction::InitConfig(LorenzConfig::Two));
    assert_eq!(e, SceneEffect::Respawn(LorenzConfig::Two));
    assert_eq!(m.trajectories(), 2);
    let e = m.apply(AppAction::InitConfig(LorenzConfig::One));
    assert_eq!(e, SceneEffect::Respawn(LorenzConfig::One));
    assert_eq!(m.trajectories(), 1);
}

#[test]
fn toggle_help_flips_and_returns() {
    let mut m = SceneModel::new();
    assert!(m.show_help());
    let e = m.apply(AppAction::ToggleHelp);
    assert_eq!(e, SceneEffect::HelpToggled);
    assert!(!m.show_help());
    m.apply(AppAction::ToggleHelp);
    assert!(m.show_help());
}

#[test]
fn add_and_remove_trajectories() {
    let mut m = SceneModel::new();
    assert_eq!(m.apply(AppAction::AddObj), SceneEffect::AddRandom);
    assert_eq!(m.apply(AppAction::AddObj), SceneEffect::AddRandom);
    assert_eq!(m.trajectories(), 2);
    assert_eq!(m.apply(AppAction::RemoveObj), SceneEffect::RemoveNewest(true));
    assert_eq!(m.trajectories(), 1);
    assert_eq!(m.apply(AppAction::RemoveObj), SceneEffect::RemoveNewest(true));
    assert_eq!(m.trajectories(), 0);
    // Removing with nothing live is a no-op the front end can ignore.
    assert_eq!(m.apply(AppAction::RemoveObj), SceneEffect::RemoveNewest(false));
    assert_eq!(m.trajectories(), 0);
}
