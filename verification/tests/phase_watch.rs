use lib::phase::{
    all_bones_live, binned_position, binned_total, emitters_arm, find_main_phase,
    parse_phase_target,
    position_of,
};

#[test]
fn a_placement_id_is_watched() {
    let t = parse_phase_target(Some(" 235256 ")).unwrap();
    assert_eq!((t.object, t.particles), (235256, false));
    assert!(t.bones.is_empty());
}

#[test]
fn particles_with_an_arming_key() {
    let t = parse_phase_target(Some("particles:60, 61,x")).unwrap();
    assert_eq!((t.object, t.particles), (0, true));
    assert_eq!(t.bones, vec![60, 61]);
    let t = parse_phase_target(Some("particles")).unwrap();
    assert!(t.particles);
    assert!(t.bones.is_empty());
    let t = parse_phase_target(Some("particles:")).unwrap();
    assert!(t.particles);
    assert!(t.bones.is_empty());
}

#[test]
fn anything_else_is_inert() {
    assert!(parse_phase_target(None).is_none());
    assert!(parse_phase_target(Some("particle")).is_none());
    assert!(parse_phase_target(Some("particlesx")).is_none());
    assert!(parse_phase_target(Some("-5")).is_none());
    assert!(parse_phase_target(Some("")).is_none());
}

#[test]
fn the_main_view_is_the_fullest_phase_and_the_last_of_equals() {
    let small = vec![vec![1u64, 2]];
    let big_a = vec![vec![7u64], vec![8, 9]];
    let big_b = vec![vec![9u64, 8], vec![7]];
    assert_eq!(find_main_phase(&vec![small.clone(), big_a.clone(), big_b.clone()]), Some(2));
    assert_eq!(binned_total(&vec![small.clone(), big_a.clone()]), 3);
    assert_eq!(binned_total(&vec![]), 0);
    assert_eq!(binned_position(&vec![small.clone(), big_a.clone()], 9), Some(2));
    assert_eq!(binned_position(&vec![small.clone(), big_a.clone(), big_b.clone()], 9), Some(0));
    assert_eq!(binned_position(&vec![small.clone(), big_a.clone()], 1), None);
    assert_eq!(binned_position(&vec![], 1), None);
}

#[test]
fn an_entity_is_placed_by_its_first_bin() {
    let phase = vec![vec![], vec![4u64, 5], vec![6, 4]];
    assert_eq!(binned_position(&vec![phase.clone()], 4), Some(0));
    assert_eq!(binned_position(&vec![phase.clone()], 6), Some(2));
    assert_eq!(position_of(&vec![3, 1, 3], 3), Some(0));
    assert_eq!(position_of(&vec![], 3), None);
}

#[test]
fn every_named_bone_must_be_live() {
    assert!(all_bones_live(&vec![], &vec![]));
    assert!(all_bones_live(&vec![60, 61], &vec![61, -1, 60]));
    assert!(!all_bones_live(&vec![60, 61], &vec![60]));
}

#[test]
fn the_particle_watch_arms_only_on_a_live_frame_holding_every_bone() {
    assert!(!emitters_arm(&vec![], &vec![]));
    assert!(emitters_arm(&vec![], &vec![3]));
    assert!(emitters_arm(&vec![3, 7], &vec![7, 1, 3]));
    assert!(!emitters_arm(&vec![3, 7], &vec![7, 1]));
    assert!(!emitters_arm(&vec![3], &vec![]));
}
