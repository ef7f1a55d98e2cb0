use lib::knobs::{
    burst_count, capture_deadline, is_one, knob_u32, knob_u64, parse_resize, probe_uncap_mode,
    UncapMode,
};
use lib::live_shot::burst_path;
use lib::pixels::{parse_bones, parse_pixels};
use lib::probe_clock::{is_decimal_of, waited_exec, within_exec};
use lib::text::{chars_of, concat_text, parse_unsigned_str};

#[test]
fn parses_a_pixel_list_and_skips_junk() {
    assert_eq!(
        parse_pixels("412,396; 565,445 ;;nope;1,"),
        vec![(412, 396), (565, 445)]
    );
}

#[test]
fn pixel_pairs_are_trimmed_on_both_sides_of_the_comma() {
    assert_eq!(parse_pixels(" 7 , 8 ;9,10"), vec![(7, 8), (9, 10)]);
    assert_eq!(parse_pixels(""), Vec::<(u32, u32)>::new());
    assert_eq!(parse_pixels("1,2,3"), Vec::<(u32, u32)>::new());
    assert_eq!(parse_pixels("-1,2"), Vec::<(u32, u32)>::new());
}

#[test]
fn bones_parse_as_a_comma_list_and_skip_junk() {
    assert_eq!(parse_bones(Some("3, 7,x,65536,12")), Some(vec![3, 7, 12]));
    assert_eq!(parse_bones(None), None);
}

#[test]
fn a_burst_numbers_its_shots_before_the_extension() {
    assert_eq!(burst_path("a.png", 7, 3), "a-007.png");
    assert_eq!(burst_path("shots/run.v2.png", 12, 20), "shots/run.v2-012.png");
    assert_eq!(burst_path("noext", 1, 2), "noext-001");
    assert_eq!(burst_path("runs.v2/shot", 0, 2), "runs.v2/shot-000");
    assert_eq!(burst_path("runs.v2/shot.png", 3, 4), "runs.v2/shot-003.png");
    assert_eq!(burst_path("/tmp/a.b/c.d/e", 9, 10), "/tmp/a.b/c.d/e-009");
}

#[test]
fn a_single_shot_keeps_the_bare_path() {
    assert_eq!(burst_path("a.png", 0, 1), "a.png");
    assert_eq!(burst_path("a.png", 5, 0), "a.png");
}

#[test]
fn knobs_fall_back_to_their_default_on_junk() {
    assert_eq!(knob_u32(Some("45"), 30), 45);
    assert_eq!(knob_u32(Some("+45"), 30), 45);
    assert_eq!(knob_u32(Some(" 45"), 30), 30);
    assert_eq!(knob_u32(Some("4294967296"), 30), 30);
    assert_eq!(knob_u32(None, 30), 30);
    assert_eq!(knob_u64(Some("4294967296"), 7), 4294967296);
    assert_eq!(knob_u64(Some(""), 7), 7);
}

#[test]
fn a_burst_is_at_least_one_shot() {
    assert_eq!(burst_count(Some("0")), 1);
    assert_eq!(burst_count(Some("5")), 5);
    assert_eq!(burst_count(Some("many")), 1);
    assert_eq!(burst_count(None), 1);
}

#[test]
fn a_switch_is_on_only_for_exactly_one() {
    assert!(is_one(Some("1")));
    assert!(!is_one(Some("true")));
    assert!(!is_one(Some("01")));
    assert!(!is_one(Some(" 1")));
    assert!(!is_one(None));
}

#[test]
fn resize_reads_width_by_height() {
    assert_eq!(parse_resize(Some("1280x720")), Some((1280, 720)));
    assert_eq!(parse_resize(Some("1280X720")), None);
    assert_eq!(parse_resize(Some("1280x")), None);
    assert_eq!(parse_resize(Some("x720")), None);
    assert_eq!(parse_resize(None), None);
}

#[test]
fn unsigned_parse_follows_str_parse() {
    assert_eq!(parse_unsigned_str("255", 255), Some(255));
    assert_eq!(parse_unsigned_str("256", 255), None);
    assert_eq!(parse_unsigned_str("+0", 255), Some(0));
    assert_eq!(parse_unsigned_str("+", 255), None);
    assert_eq!(parse_unsigned_str("1_0", 255), None);
}

#[test]
fn chars_round_trip_through_a_string() {
    let v = chars_of("héllo wörld");
    assert_eq!(v.len(), 11);
    assert_eq!(v[1], 'é');
    assert_eq!(concat_text("héllo", " wörld"), "héllo wörld");
    assert_eq!(concat_text("a", "b"), "ab");
    assert_eq!(concat_text("", ""), "");
}

#[test]
fn decimal_text_matches_only_its_own_number() {
    assert!(is_decimal_of("0", 0));
    assert!(is_decimal_of("120", 120));
    assert!(!is_decimal_of("0120", 120));
    assert!(!is_decimal_of("12", 120));
    assert!(!is_decimal_of("", 0));
}

#[test]
fn the_probe_clock_compares_strictly() {
    assert!(!waited_exec(2000, 1000, 1000));
    assert!(waited_exec(2001, 1000, 1000));
    assert!(!waited_exec(500, 1000, 0));
    assert!(within_exec(1999, 1000, 1000));
    assert!(!within_exec(2000, 1000, 1000));
}

#[test]
fn the_capture_deadline_defaults_and_zero_disables_it() {
    assert_eq!(capture_deadline(None, 300), Some(300));
    assert_eq!(capture_deadline(Some("45"), 300), Some(45));
    assert_eq!(capture_deadline(Some("0"), 300), None);
    assert_eq!(capture_deadline(Some("soon"), 300), Some(300));
}

#[test]
fn only_immediate_uncaps_to_immediate() {
    assert_eq!(probe_uncap_mode(Some("immediate")), UncapMode::Immediate);
    assert_eq!(probe_uncap_mode(Some("Immediate")), UncapMode::AutoNoVsync);
    assert_eq!(probe_uncap_mode(Some("")), UncapMode::AutoNoVsync);
    assert_eq!(probe_uncap_mode(None), UncapMode::AutoNoVsync);
}
