use g600::config::{
    command_outcome, read_config, run_command, stop_command, Binding, BindingTable,
    CommandExecutionError, ConfigLoadError, ProgramEntry, DEFAULT_PROGRAM,
};

fn entry(program: &str, bindings: &[(&str, &str)]) -> ProgramEntry {
    ProgramEntry {
        program: program.to_string(),
        bindings: bindings
            .iter()
            .map(|(button, command)| Binding {
                button: button.to_string(),
                command: command.to_string(),
            })
            .collect(),
    }
}

fn sample() -> BindingTable {
    BindingTable::from_entries(vec![
        entry("Firefox", &[("G9", "cmd1")]),
        entry("_default", &[("G9", "cmd2"), ("G10", "cmd3")]),
    ])
    .unwrap()
}

fn command(table: &BindingTable, program: &str, button: &str) -> String {
    table.command(&program.to_string(), &button.to_string()).to_string()
}

const SAMPLE_YAML: &str = "Firefox:\n  G9: cmd1\n_default:\n  G9: cmd2\n  G10: cmd3\n";

#[test]
fn default_program_name() {
    assert_eq!(DEFAULT_PROGRAM, "_default");
}

#[test]
fn own_binding_comes_first() {
    assert_eq!(command(&sample(), "Firefox", "G9"), "cmd1");
}

#[test]
fn unbound_button_falls_through_to_default() {
    assert_eq!(command(&sample(), "Firefox", "G10"), "cmd3");
}

#[test]
fn unknown_program_falls_through_to_default() {
    assert_eq!(command(&sample(), "Chrome", "G9"), "cmd2");
}

#[test]
fn nothing_bound_anywhere_is_the_empty_command() {
    assert_eq!(command(&sample(), "Chrome", "G20"), "");
    assert_eq!(command(&sample(), "Firefox", "G20"), "");
    assert_eq!(command(&sample(), "_default", "G20"), "");
}

#[test]
fn default_program_resolves_against_itself() {
    assert_eq!(command(&sample(), "_default", "G9"), "cmd2");
    assert_eq!(command(&sample(), "_default", "G10"), "cmd3");
}

#[test]
fn names_are_compared_exactly() {
    let table = sample();
    assert_eq!(command(&table, "firefox", "G9"), "cmd2");
    assert_eq!(command(&table, "Firefox ", "G9"), "cmd2");
    assert_eq!(command(&table, "Firefox", "g9"), "");
    assert_eq!(command(&table, "", "G9"), "cmd2");
    assert_eq!(command(&table, "Firefox", ""), "");
}

#[test]
fn binding_is_the_programs_own() {
    let table = sample();
    let firefox = "Firefox".to_string();
    let chrome = "Chrome".to_string();
    let g9 = "G9".to_string();
    let g10 = "G10".to_string();
    assert_eq!(table.binding(&firefox, &g9), Some(&"cmd1".to_string()));
    assert_eq!(table.binding(&firefox, &g10), None);
    assert_eq!(table.binding(&chrome, &g9), None);
    assert_eq!(table.binding(&DEFAULT_PROGRAM.to_string(), &g10), Some(&"cmd3".to_string()));
}

#[test]
fn resolving_twice_gives_the_same_command() {
    let table = sample();
    for program in ["Firefox", "Chrome", "_default", ""] {
        for button in ["G9", "G10", "G20", ""] {
            let first = command(&table, program, button);
            let second = command(&table, program, button);
            assert_eq!(first, second);
        }
    }
    assert_eq!(command(&table, "Firefox", "G9"), "cmd1");
}

#[test]
fn last_listing_counts() {
    let table = BindingTable::from_entries(vec![
        entry("Firefox", &[("G9", "old")]),
        entry("_default", &[("G9", "a"), ("G10", "b"), ("G9", "c")]),
        entry("Firefox", &[("G10", "new")]),
    ])
    .unwrap();
    assert_eq!(command(&table, "Firefox", "G10"), "new");
    assert_eq!(command(&table, "Firefox", "G9"), "c");
    assert_eq!(command(&table, "Chrome", "G9"), "c");
    assert_eq!(command(&table, "Chrome", "G10"), "b");
}

#[test]
fn table_without_default_is_refused() {
    let missing = BindingTable::from_entries(vec![entry("Firefox", &[("G9", "cmd1")])]);
    assert!(matches!(missing, Err(ConfigLoadError::MissingDefault)));
    let empty = BindingTable::from_entries(Vec::new());
    assert!(matches!(empty, Err(ConfigLoadError::MissingDefault)));
}

#[test]
fn empty_default_is_enough() {
    let table = BindingTable::from_entries(vec![entry("_default", &[])]).unwrap();
    assert_eq!(command(&table, "Firefox", "G9"), "");
    assert_eq!(run_command(&table, &"Firefox".to_string(), &"G9".to_string()), None);
}

#[test]
fn config_is_read_from_yaml() {
    let table = read_config(SAMPLE_YAML).unwrap();
    assert_eq!(command(&table, "Firefox", "G9"), "cmd1");
    assert_eq!(command(&table, "Firefox", "G10"), "cmd3");
    assert_eq!(command(&table, "Chrome", "G9"), "cmd2");
    assert_eq!(command(&table, "Chrome", "G20"), "");
}

#[test]
fn yaml_commands_keep_their_text() {
    let text = "_default:\n  G9: \"xdotool key ctrl+c\"\n  G_shift_G9: 'echo \"hi there\"'\nemacs:\n  G9: xdotool key alt+w\n";
    let table = read_config(text).unwrap();
    assert_eq!(command(&table, "emacs", "G9"), "xdotool key alt+w");
    assert_eq!(command(&table, "emacs", "G_shift_G9"), "echo \"hi there\"");
    assert_eq!(command(&table, "xterm", "G9"), "xdotool key ctrl+c");
}

#[test]
fn yaml_without_default_is_refused() {
    let loaded = read_config("Firefox:\n  G9: cmd1\n");
    assert!(matches!(loaded, Err(ConfigLoadError::MissingDefault)));
}

#[test]
fn yaml_with_empty_default_is_accepted() {
    let table = read_config("_default: {}\n").unwrap();
    assert_eq!(command(&table, "Firefox", "G9"), "");
}

#[test]
fn malformed_yaml_is_refused() {
    for text in ["_default: [1, 2", "- a\n- b\n", "_default: just text\n", "_default:\n  G9: [a, b]\n", "\"unclosed"] {
        match read_config(text) {
            Err(ConfigLoadError::Malformed { message }) => assert!(!message.is_empty()),
            other => panic!("expected a malformed configuration, got {:?}", other.map(|_| ())),
        }
    }
}

#[test]
fn press_runs_the_resolved_command() {
    let table = sample();
    let run = |program: &str, button: &str| {
        run_command(&table, &program.to_string(), &button.to_string())
    };
    assert_eq!(run("Firefox", "G9"), Some("cmd1".to_string()));
    assert_eq!(run("Firefox", "G10"), Some("cmd3".to_string()));
    assert_eq!(run("Chrome", "G9"), Some("cmd2".to_string()));
    assert_eq!(run("Chrome", "G20"), None);
}

#[test]
fn empty_binding_runs_nothing() {
    let table = BindingTable::from_entries(vec![
        entry("Firefox", &[("G9", "")]),
        entry("_default", &[("G9", "cmd2")]),
    ])
    .unwrap();
    assert_eq!(command(&table, "Firefox", "G9"), "");
    assert_eq!(run_command(&table, &"Firefox".to_string(), &"G9".to_string()), None);
}

#[test]
fn silent_command_succeeded() {
    assert_eq!(command_outcome("true".to_string(), Vec::new()), Ok(()));
}

#[test]
fn error_output_is_failure() {
    let outcome = command_outcome("ls /nowhere".to_string(), b"ls: cannot access".to_vec());
    assert_eq!(
        outcome,
        Err(CommandExecutionError {
            command: "ls /nowhere".to_string(),
            stderr: b"ls: cannot access".to_vec(),
        })
    );
    assert!(command_outcome(String::new(), vec![0]).is_err());
}

#[test]
fn release_hook_does_nothing() {
    let table = sample();
    assert_eq!(stop_command(&table, &"G9".to_string()), Ok(()));
    assert_eq!(stop_command(&table, &"".to_string()), Ok(()));
    assert_eq!(command(&table, "Firefox", "G9"), "cmd1");
}
