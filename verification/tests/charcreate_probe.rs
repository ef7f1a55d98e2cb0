use lib::charcreate::{
    names_match, parse_req, result_label, CharAction, CharCreateProbe, CharCreateStep,
    ProbeState, RosterEntry, CHAR_CREATE_NAME_IN_USE, CHAR_CREATE_SUCCESS, CHAR_DELETE_SUCCESS,
};

#[test]
fn a_bare_name_defaults_to_a_human_warrior() {
    let r = parse_req("Probeone").unwrap();
    assert_eq!(r.name, "Probeone");
    assert_eq!((r.race, r.class, r.gender), (1, 1, 0));
    assert_eq!((r.skin, r.face, r.hair_style, r.hair_color, r.facial_hair), (0, 0, 0, 0, 0));
}

#[test]
fn every_field_is_read_in_order_and_junk_falls_back() {
    let r = parse_req(" Tester , 4, 11 ,1,2,3,4,5,6").unwrap();
    assert_eq!(r.name, "Tester");
    assert_eq!((r.race, r.class, r.gender), (4, 11, 1));
    assert_eq!((r.skin, r.face, r.hair_style, r.hair_color, r.facial_hair), (2, 3, 4, 5, 6));
    let r = parse_req("Tester,300,x").unwrap();
    assert_eq!((r.race, r.class, r.gender), (1, 1, 0));
}

#[test]
fn a_request_needs_a_name() {
    assert!(parse_req("").is_none());
    assert!(parse_req("  ,4,1").is_none());
}

#[test]
fn result_bytes_are_labelled_per_verb() {
    assert_eq!(result_label(CharAction::Create, CHAR_CREATE_SUCCESS), "CHAR_CREATE_SUCCESS");
    assert_eq!(
        result_label(CharAction::Create, CHAR_CREATE_NAME_IN_USE),
        "CHAR_NAME_ALREADY_IN_USE"
    );
    assert_eq!(result_label(CharAction::Delete, CHAR_DELETE_SUCCESS), "CHAR_DELETE_SUCCESS");
    assert_eq!(result_label(CharAction::Delete, CHAR_CREATE_SUCCESS), "other");
    assert_eq!(result_label(CharAction::Create, CHAR_DELETE_SUCCESS), "other");
}

#[test]
fn names_compare_ignoring_ascii_case_only() {
    assert!(names_match("Probeone", "PROBEONE"));
    assert!(!names_match("Probeone", "Probeon"));
    assert!(!names_match("Ä", "ä"));
}

fn roster(name: &str, guid: u64) -> Vec<RosterEntry> {
    vec![RosterEntry { name: "Other".to_string(), guid: 1 }, RosterEntry { name: name.to_string(), guid }]
}

#[test]
fn a_made_character_is_deleted_again_by_its_guid() {
    let mut p = CharCreateProbe::new(parse_req("Probeone").unwrap(), false);
    let (out, used) = p.step(None, &[]);
    assert!(out.is_empty());
    assert_eq!(used, 0);
    assert_eq!(p.state, ProbeState::AwaitingRoster);

    let (out, used) = p.step(Some(vec![]), &[(CharAction::Create, CHAR_CREATE_SUCCESS)]);
    assert_eq!(out, vec![CharCreateStep::SendCreate]);
    assert_eq!(used, 0);
    assert_eq!(p.state, ProbeState::Creating);

    let (out, used) = p.step(
        Some(roster("PROBEONE", 77)),
        &[(CharAction::Delete, 0), (CharAction::Create, CHAR_CREATE_SUCCESS), (CharAction::Create, 1)],
    );
    assert_eq!(
        out,
        vec![CharCreateStep::CreateResult(CHAR_CREATE_SUCCESS), CharCreateStep::SendDelete(77)]
    );
    assert_eq!(used, 2);
    assert_eq!(p.state, ProbeState::Deleting);

    let (out, used) = p.step(None, &[(CharAction::Delete, CHAR_DELETE_SUCCESS)]);
    assert_eq!(out, vec![CharCreateStep::DeleteResult(CHAR_DELETE_SUCCESS)]);
    assert_eq!(used, 1);
    assert_eq!(p.state, ProbeState::Done);
}

#[test]
fn a_kept_character_stays() {
    let mut p = CharCreateProbe::new(parse_req("Keeper").unwrap(), true);
    p.step(Some(vec![]), &[]);
    let (out, _) = p.step(Some(roster("Keeper", 5)), &[(CharAction::Create, CHAR_CREATE_SUCCESS)]);
    assert_eq!(out, vec![CharCreateStep::CreateResult(CHAR_CREATE_SUCCESS), CharCreateStep::Kept]);
    assert_eq!(p.state, ProbeState::Done);
}

#[test]
fn a_made_character_missing_from_the_roster_cannot_be_cleaned_up() {
    let mut p = CharCreateProbe::new(parse_req("Ghost").unwrap(), false);
    p.step(Some(vec![]), &[]);
    let (out, _) = p.step(Some(roster("Someone", 5)), &[(CharAction::Create, CHAR_CREATE_SUCCESS)]);
    assert_eq!(
        out,
        vec![CharCreateStep::CreateResult(CHAR_CREATE_SUCCESS), CharCreateStep::NotInRoster]
    );
    assert_eq!(p.state, ProbeState::Done);
}

#[test]
fn a_refused_create_ends_the_probe() {
    let mut p = CharCreateProbe::new(parse_req("Taken").unwrap(), false);
    p.step(Some(vec![]), &[]);
    let (out, used) = p.step(None, &[(CharAction::Create, CHAR_CREATE_NAME_IN_USE)]);
    assert_eq!(out, vec![CharCreateStep::CreateResult(CHAR_CREATE_NAME_IN_USE)]);
    assert_eq!(used, 1);
    assert_eq!(p.state, ProbeState::Done);
}

#[test]
fn results_for_the_other_verb_are_read_past_while_waiting() {
    let mut p = CharCreateProbe::new(parse_req("Wait").unwrap(), false);
    p.step(Some(vec![]), &[]);
    let (out, used) = p.step(None, &[(CharAction::Delete, 0), (CharAction::Delete, 1)]);
    assert!(out.is_empty());
    assert_eq!(used, 2);
    assert_eq!(p.state, ProbeState::Creating);
}
