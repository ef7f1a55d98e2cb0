use lib::registry::{probe_vars, wall_clock_vars, PROBE_NAMES, PROBE_VARS};

#[test]
fn every_probe_variable_is_registered_and_every_registered_variable_is_read() {
    let registered: Vec<&str> = probe_vars().iter().map(|v| v.name).collect();
    assert_eq!(registered.len(), PROBE_VARS.len());
    for (i, name) in registered.iter().enumerate() {
        assert!(!registered[..i].contains(name), "`{name}` is registered twice");
        assert!(
            name.starts_with("WOW_PROBE"),
            "`{name}` is not a probe variable — the registry is `WOW_PROBE*` only"
        );
    }
}

#[test]
fn every_dispatched_probe_name_is_listed_and_every_listed_name_is_dispatched() {
    let listed: Vec<&str> = PROBE_NAMES.iter().map(|(n, _)| *n).collect();
    for (i, name) in listed.iter().enumerate() {
        assert!(!listed[..i].contains(name), "`{name}` is listed twice");
    }
    assert!(listed.contains(&"list"));
}

#[test]
fn the_wall_clock_column_arms_the_probe_window_in_table_order() {
    let armed = wall_clock_vars();
    let expected: Vec<&str> = PROBE_VARS
        .iter()
        .filter(|row| row.2)
        .map(|row| row.0)
        .collect();
    assert_eq!(armed, expected);
    assert_eq!(armed[0], "WOW_PROBE");
    assert!(armed.contains(&"WOW_PROBE_EXIT_AT"));
    assert!(!armed.contains(&"WOW_PROBE_PARK"));
    assert!(!armed.contains(&"WOW_PROBE_CHAT_AT"));
}

#[test]
fn the_registry_rows_keep_their_columns() {
    let vars = probe_vars();
    for (v, row) in vars.iter().zip(PROBE_VARS.iter()) {
        assert_eq!(v.name, row.0);
        assert_eq!(v.purpose, row.1);
        assert_eq!(v.wall_clock, row.2);
    }
}

#[test]
fn the_armed_names_are_probe_variables_each_once() {
    let armed = wall_clock_vars();
    for (i, name) in armed.iter().enumerate() {
        assert!(name.starts_with("WOW_PROBE"));
        assert!(!armed[..i].contains(name));
    }
}
