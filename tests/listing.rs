use hoi::listing::did_you_know_facts;
use hoi::{
    display_text, environment_files, get_random_did_you_know, listing, CommandDocument,
    ConfigDocument, Hoi,
};

fn load(description: Option<&str>) -> Hoi {
    let doc = ConfigDocument {
        version: None,
        description: description.map(|d| d.to_string()),
        entrypoint: None,
        commands: Some(vec![(
            "echo-test".to_string(),
            CommandDocument {
                cmd: "echo ok".to_string(),
                alias: Some("et".to_string()),
                description: Some("Prints a test success message".to_string()),
            },
        )]),
    };
    Hoi::from_document(&doc).unwrap()
}

#[test]
fn listing_shows_banner_description_and_commands() {
    let text = listing(&load(Some("Integration test config")), "A fact.");
    assert!(text.starts_with("Hoi Hoi!\n\nDid you know? A fact.\n\nUsage:\n"));
    assert!(text.contains("\nIntegration test config\n\n"));
    assert!(text.contains("echo-test"));
    assert!(text.contains("et"));
    assert!(text.contains("Prints a test success message"));
    assert!(text.contains("Create a new .hoi.yml configuration file in the current directory."));
    assert!(text.ends_with("\n\n"));
}

#[test]
fn listing_table_is_aligned_in_columns() {
    let text = listing(&load(None), "F");
    let header = text.lines().find(|l| l.contains("Command")).unwrap();
    let row = text.lines().find(|l| l.contains("echo-test")).unwrap();
    assert_eq!(header.find("Alias"), row.find("et "));
    assert!(header.starts_with(" Command"));
    assert!(!text.contains("[\"Command\""));
}

#[test]
fn listing_without_description() {
    let text = listing(&load(None), "F");
    assert!(text.contains("(command arguments...)\n\n Command"));
}

#[test]
fn random_fact_is_one_of_the_facts() {
    let facts = did_you_know_facts();
    assert_eq!(facts.len(), 12);
    for _ in 0..20 {
        assert!(facts.contains(&get_random_did_you_know()));
    }
}

#[test]
fn display_text_uses_a_fact() {
    let text = display_text(&load(None));
    let facts = did_you_know_facts();
    assert!(facts.iter().any(|f| text.contains(f)));
}

#[test]
fn environment_files_in_load_order() {
    let files = environment_files();
    assert_eq!(files.len(), 2);
    assert_eq!(files[0].name, ".env");
    assert!(!files[0].overrides);
    assert_eq!(files[1].name, ".env.local");
    assert!(files[1].overrides);
}
