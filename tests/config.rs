use hoi::{
    default_description, default_entrypoint, default_version, trimmed, CommandDocument,
    ConfigDocument, Hoi, HoiError,
};

fn strings(items: &[&str]) -> Vec<String> {
    items.iter().map(|s| s.to_string()).collect()
}

fn command(cmd: &str, alias: Option<&str>, description: Option<&str>) -> CommandDocument {
    CommandDocument {
        cmd: cmd.to_string(),
        alias: alias.map(|a| a.to_string()),
        description: description.map(|d| d.to_string()),
    }
}

fn document(entries: Vec<(&str, CommandDocument)>) -> ConfigDocument {
    ConfigDocument {
        version: None,
        description: None,
        entrypoint: None,
        commands: Some(entries.into_iter().map(|(n, c)| (n.to_string(), c)).collect()),
    }
}

fn load(doc: ConfigDocument) -> Hoi {
    Hoi::from_document(&doc).expect("document with commands loads")
}

#[test]
fn test_custom_entrypoint() {
    let mut doc = document(vec![("test", command("echo test", None, None))]);
    doc.entrypoint = Some(strings(&["sh", "-c", "$@"]));
    let result = Hoi::from_document(&doc);

    assert!(result.is_ok(), "Failed to load valid config: {:?}", result.as_ref().err());

    let hoi = result.unwrap();
    assert_eq!(hoi.entrypoint, vec!["sh", "-c", "$@"]);
}

#[test]
fn defaults_apply_to_absent_fields() {
    let hoi = load(document(vec![("build", command("make", None, None))]));
    assert_eq!(hoi.entrypoint, vec!["bash", "-e", "-c", "$@"]);
    assert_eq!(hoi.version, "1");
    assert_eq!(hoi.description, "");
    assert!(!hoi.entrypoint_declared);
    let build = hoi.commands.get("build").unwrap();
    assert_eq!(build.description, "");
    assert_eq!(build.alias, None);
}

#[test]
fn declared_fields_are_kept() {
    let mut doc = document(vec![("build", command("make", Some("b"), Some("Builds")))]);
    doc.version = Some("2".to_string());
    doc.description = Some("Project tasks".to_string());
    let hoi = load(doc);
    assert_eq!(hoi.version, "2");
    assert_eq!(hoi.description, "Project tasks");
    let build = hoi.commands.get("build").unwrap();
    assert_eq!(build.cmd, "make");
    assert_eq!(build.alias.as_deref(), Some("b"));
    assert_eq!(build.description, "Builds");
}

#[test]
fn default_value_functions() {
    assert_eq!(default_version(), "1");
    assert_eq!(default_description(), "");
    assert_eq!(default_entrypoint(), vec!["bash", "-e", "-c", "$@"]);
}

#[test]
fn empty_commands_are_rejected() {
    let result = Hoi::from_document(&document(vec![]));
    assert!(matches!(result, Err(HoiError::NoCommandsDefined)));
}

#[test]
fn missing_commands_are_rejected() {
    let doc = ConfigDocument { version: None, description: None, entrypoint: None, commands: None };
    assert!(matches!(Hoi::from_document(&doc), Err(HoiError::NoCommandsDefined)));
}

#[test]
fn repeated_name_keeps_first_place_and_last_definition() {
    let hoi = load(document(vec![
        ("a", command("one", None, None)),
        ("b", command("two", None, None)),
        ("a", command("three", None, None)),
    ]));
    let names: Vec<&String> = hoi.commands.keys().collect();
    assert_eq!(names, vec!["a", "b"]);
    assert_eq!(hoi.commands.get("a").unwrap().cmd, "three");
}

#[test]
fn alias_is_trimmed() {
    assert_eq!(trimmed(Some("  ml \t".to_string())), Some("ml".to_string()));
    assert_eq!(trimmed(Some("ml".to_string())), Some("ml".to_string()));
}

#[test]
fn whitespace_alias_is_absent() {
    assert_eq!(trimmed(Some("  ".to_string())), None);
    assert_eq!(trimmed(Some(String::new())), None);
    assert_eq!(trimmed(None), None);
    let hoi = load(document(vec![("x", command("echo x", Some("  "), None))]));
    assert_eq!(hoi.commands.get("x").unwrap().alias, None);
}

#[test]
fn merge_local_command_replaces_global() {
    let global = load(document(vec![
        ("x", command("echo global", None, Some("G"))),
        ("y", command("echo y", None, Some("only global"))),
    ]));
    let local = load(document(vec![("x", command("echo local", None, Some("L")))]));
    let merged = Hoi::merge(Some(global), Some(local));
    let x = merged.commands.get("x").unwrap();
    assert_eq!(x.description, "L");
    assert_eq!(x.cmd, "echo local");
    let y = merged.commands.get("y").unwrap();
    assert_eq!(y.description, "only global");
    let names: Vec<&String> = merged.commands.keys().collect();
    assert_eq!(names, vec!["x", "y"]);
}

#[test]
fn merge_description_precedence() {
    let mut g = document(vec![("a", command("true", None, None))]);
    g.description = Some("global text".to_string());
    let mut l = document(vec![("b", command("true", None, None))]);
    l.description = Some("local text".to_string());
    let merged = Hoi::merge(Some(load(g)), Some(load(l)));
    assert_eq!(merged.description, "local text");

    let mut g = document(vec![("a", command("true", None, None))]);
    g.description = Some("global text".to_string());
    let l = document(vec![("b", command("true", None, None))]);
    let merged = Hoi::merge(Some(load(g)), Some(load(l)));
    assert_eq!(merged.description, "global text");
}

#[test]
fn merge_entrypoint_precedence() {
    let mut g = document(vec![("a", command("true", None, None))]);
    g.entrypoint = Some(strings(&["sh", "-c", "$@"]));
    let l = document(vec![("b", command("true", None, None))]);
    let merged = Hoi::merge(Some(load(g)), Some(load(l)));
    assert_eq!(merged.entrypoint, vec!["sh", "-c", "$@"]);

    let mut g = document(vec![("a", command("true", None, None))]);
    g.entrypoint = Some(strings(&["sh", "-c", "$@"]));
    let mut l = document(vec![("b", command("true", None, None))]);
    l.entrypoint = Some(strings(&["zsh", "-c"]));
    let merged = Hoi::merge(Some(load(g)), Some(load(l)));
    assert_eq!(merged.entrypoint, vec!["zsh", "-c"]);

    let g = document(vec![("a", command("true", None, None))]);
    let l = document(vec![("b", command("true", None, None))]);
    let merged = Hoi::merge(Some(load(g)), Some(load(l)));
    assert_eq!(merged.entrypoint, vec!["bash", "-e", "-c", "$@"]);
}

#[test]
fn merge_of_nothing_is_empty() {
    let merged = Hoi::merge(None, None);
    assert!(merged.commands.is_empty());
    assert!(merged.entrypoint.is_empty());
    assert_eq!(merged.description, "");
}

#[test]
fn resolve_without_sources_is_config_not_found() {
    assert!(matches!(Hoi::resolve(None, None), Err(HoiError::ConfigNotFound)));
}

#[test]
fn resolve_with_failed_sources_has_no_commands() {
    let result = Hoi::resolve(
        Some(Err(HoiError::NoCommandsDefined)),
        Some(Err(HoiError::ConfigNotFound)),
    );
    assert!(matches!(result, Err(HoiError::NoCommandsDefined)));
}

#[test]
fn resolve_swallows_failed_global() {
    let local = load(document(vec![("run", command("echo run", None, None))]));
    let result = Hoi::resolve(Some(Err(HoiError::NoCommandsDefined)), Some(Ok(local)));
    let hoi = result.expect("local config alone suffices");
    assert_eq!(hoi.commands.len(), 1);
    assert_eq!(hoi.commands.get("run").unwrap().cmd, "echo run");
}

#[test]
fn resolve_global_only() {
    let global = load(document(vec![("g", command("echo g", None, None))]));
    let hoi = Hoi::resolve(Some(Ok(global)), None).expect("global config alone suffices");
    assert_eq!(hoi.commands.get("g").unwrap().cmd, "echo g");
}
