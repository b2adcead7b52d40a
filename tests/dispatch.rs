use hoi::{
    expand_entrypoint, find_command_by_alias, nearest_config, parse_request, resolve_command,
    CommandDocument, ConfigDocument, Hoi, HoiError, Request,
};

fn strings(items: &[&str]) -> Vec<String> {
    items.iter().map(|s| s.to_string()).collect()
}

fn command(cmd: &str, alias: Option<&str>) -> CommandDocument {
    CommandDocument { cmd: cmd.to_string(), alias: alias.map(|a| a.to_string()), description: None }
}

fn load(entries: Vec<(&str, CommandDocument)>, entrypoint: Option<Vec<String>>) -> Hoi {
    let doc = ConfigDocument {
        version: None,
        description: None,
        entrypoint,
        commands: Some(entries.into_iter().map(|(n, c)| (n.to_string(), c)).collect()),
    };
    Hoi::from_document(&doc).expect("document with commands loads")
}

#[test]
fn placeholder_is_replaced_by_command_text() {
    let inv = expand_entrypoint(&strings(&["bash", "-e", "-c", "$@"]), "echo hi", &strings(&["x"]));
    assert_eq!(inv.program, "bash");
    assert_eq!(inv.args, vec!["-e", "-c", "echo hi", "x"]);
}

#[test]
fn command_text_is_appended_without_placeholder() {
    let inv = expand_entrypoint(&strings(&["sh", "-x"]), "echo hi", &Vec::new());
    assert_eq!(inv.program, "sh");
    assert_eq!(inv.args, vec!["-x", "echo hi"]);
}

#[test]
fn every_placeholder_is_replaced() {
    let inv = expand_entrypoint(&strings(&["run", "$@", "--", "$@"]), "a b", &strings(&["1", "2"]));
    assert_eq!(inv.program, "run");
    assert_eq!(inv.args, vec!["a b", "--", "a b", "1", "2"]);
}

#[test]
fn empty_template_runs_command_text() {
    let inv = expand_entrypoint(&Vec::new(), "ls", &strings(&["-l"]));
    assert_eq!(inv.program, "ls");
    assert_eq!(inv.args, vec!["-l"]);
}

#[test]
fn alias_resolves_to_command_name() {
    let hoi = load(vec![("multiline", command("echo 1", Some("ml"))), ("other", command("echo 2", None))], None);
    assert_eq!(find_command_by_alias(&hoi, "ml"), Some("multiline".to_string()));
    assert_eq!(find_command_by_alias(&hoi, "other"), None);
    assert_eq!(resolve_command(&hoi, "ml").unwrap(), "multiline");
    assert_eq!(resolve_command(&hoi, "other").unwrap(), "other");
}

#[test]
fn first_alias_match_wins() {
    let hoi = load(vec![("first", command("echo 1", Some("d"))), ("second", command("echo 2", Some("d")))], None);
    assert_eq!(find_command_by_alias(&hoi, "d"), Some("first".to_string()));
}

#[test]
fn alias_takes_precedence_over_name() {
    let hoi = load(vec![("build", command("make", None)), ("test", command("make test", Some("build")))], None);
    assert_eq!(resolve_command(&hoi, "build").unwrap(), "test");
}

#[test]
fn unknown_token_is_command_not_found() {
    let hoi = load(vec![("build", command("make", None))], None);
    match resolve_command(&hoi, "deploy") {
        Err(HoiError::CommandNotFound(t)) => assert_eq!(t, "deploy"),
        other => panic!("unexpected {:?}", other),
    }
}

#[test]
fn whitespace_alias_does_not_match() {
    let hoi = load(vec![("x", command("echo x", Some("  ")))], None);
    match resolve_command(&hoi, "  ") {
        Err(HoiError::CommandNotFound(t)) => assert_eq!(t, "  "),
        other => panic!("unexpected {:?}", other),
    }
}

#[test]
fn prepare_command_by_alias() {
    let hoi = load(vec![("greet", command("echo hi", Some("g")))], None);
    let inv = hoi.prepare_command("g", &strings(&["x"])).unwrap();
    assert_eq!(inv.program, "bash");
    assert_eq!(inv.args, vec!["-e", "-c", "echo hi", "x"]);
}

#[test]
fn prepare_command_with_custom_entrypoint() {
    let hoi = load(vec![("greet", command("echo hi", None))], Some(strings(&["sh", "-x"])));
    let inv = hoi.prepare_command("greet", &Vec::new()).unwrap();
    assert_eq!(inv.program, "sh");
    assert_eq!(inv.args, vec!["-x", "echo hi"]);
}

#[test]
fn prepare_unknown_command_fails() {
    let hoi = load(vec![("greet", command("echo hi", None))], None);
    assert!(matches!(hoi.prepare_command("nope", &Vec::new()), Err(HoiError::CommandNotFound(_))));
}

#[test]
fn nearest_ancestor_wins() {
    // Searching from a/b/c: c has no file, b and a do.
    assert_eq!(nearest_config(&vec![false, true, true]), Some(1));
    assert_eq!(nearest_config(&vec![true, true]), Some(0));
}

#[test]
fn no_config_in_any_ancestor() {
    assert_eq!(nearest_config(&vec![false, false, false]), None);
    assert_eq!(nearest_config(&Vec::new()), None);
}

#[test]
fn request_kinds() {
    assert!(matches!(parse_request(&Vec::new()), Request::List));
    assert!(matches!(parse_request(&strings(&["init"])), Request::Init));
    match parse_request(&strings(&["build", "--release", "x"])) {
        Request::Run { token, args } => {
            assert_eq!(token, "build");
            assert_eq!(args, vec!["--release", "x"]);
        }
        other => panic!("unexpected {:?}", other),
    }
}
