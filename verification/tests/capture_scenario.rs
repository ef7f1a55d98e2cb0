use lib::scenario::{capture_lane, fx_model_path, ui_fixture_due, water_mode, CaptureLane, WaterMode};

#[test]
fn a_capture_name_picks_its_lane() {
    assert_eq!(capture_lane("ui-login", true, false), CaptureLane::Glue);
    assert_eq!(capture_lane("fxview", false, false), CaptureLane::FxView);
    assert_eq!(capture_lane("waterfx", false, true), CaptureLane::WaterFx);
    assert_eq!(capture_lane("vista", false, false), CaptureLane::Vista);
    assert_eq!(capture_lane("goldshire-noon", false, true), CaptureLane::Named);
    assert_eq!(capture_lane("FXVIEW", false, false), CaptureLane::Unknown);
    assert_eq!(capture_lane("nowhere", false, false), CaptureLane::Unknown);
}

#[test]
fn the_effect_viewer_needs_a_model_or_a_display_id() {
    assert_eq!(
        fx_model_path(Some("Spells\\DemonArmor_Impact_Head.mdx"), Some(7), None),
        Some("Spells\\DemonArmor_Impact_Head.mdx".to_string())
    );
    assert_eq!(fx_model_path(None, Some(1132), None), Some(String::new()));
    assert_eq!(fx_model_path(None, None, Some(3073)), Some(String::new()));
    assert_eq!(fx_model_path(None, None, None), None);
}

#[test]
fn the_water_viewer_mode_defaults_to_a_ring() {
    assert_eq!(water_mode(Some("wake")), WaterMode::Wake);
    assert_eq!(water_mode(Some("turn")), WaterMode::Turn);
    assert_eq!(water_mode(Some("Wake")), WaterMode::Ring);
    assert_eq!(water_mode(None), WaterMode::Ring);
}

#[test]
fn the_ui_fixture_is_seeded_once_after_the_world_loads() {
    assert!(ui_fixture_due(true, false, 12, 12));
    assert!(!ui_fixture_due(true, true, 12, 12));
    assert!(!ui_fixture_due(false, false, 12, 12));
    assert!(!ui_fixture_due(true, false, 11, 12));
    assert!(!ui_fixture_due(true, false, 0, 0));
}
