use xtask_core::registry::base_commands;
use xtask_core::registry::base_subcommands;
use xtask_core::registry::base_targets;
use xtask_core::registry::commands;
use xtask_core::registry::declare_targets;
use xtask_core::registry::extend_subcommands;
use xtask_core::registry::extend_targets;
use xtask_core::registry::variant;
use xtask_core::vocabulary::CompositionError;

fn names(voc: &xtask_core::vocabulary::Vocabulary) -> Vec<String> {
    voc.variants.iter().map(|v| v.name.clone()).collect()
}

#[test]
fn base_targets_hold_the_four_scopes_with_workspace_default() {
    let base = base_targets();
    assert_eq!(names(&base), vec!["AllPackages", "Crates", "Examples", "Workspace"]);
    let defaults: Vec<bool> = base.variants.iter().map(|v| v.is_default).collect();
    assert_eq!(defaults, vec![false, false, false, true]);
}

#[test]
fn extending_targets_appends_host_variants_after_the_base() {
    let extra = vec![variant("Frontend", "Targets the web frontend.", false)];
    let merged = extend_targets(&extra).unwrap();
    assert_eq!(merged.base_count, 4);
    assert_eq!(
        names(&merged.vocabulary),
        vec!["AllPackages", "Crates", "Examples", "Workspace", "Frontend"]
    );
}

#[test]
fn downcast_is_the_identity_on_base_originated_targets() {
    let extra = vec![variant("Frontend", "Targets the web frontend.", false)];
    let merged = extend_targets(&extra).unwrap();
    for v in 0..4 {
        assert_eq!(merged.downcast(v).unwrap(), v);
        assert_eq!(
            merged.vocabulary.variants[v].name,
            base_targets().variants[v].name
        );
    }
}

#[test]
fn downcast_rejects_host_only_targets_with_the_display_name() {
    let extra = vec![variant("Frontend", "Targets the web frontend.", false)];
    let merged = extend_targets(&extra).unwrap();
    let err = merged.downcast(4).unwrap_err();
    assert_eq!(err.variant, "frontend");
    assert_eq!(err.message(), "frontend target is not supported.");
}

#[test]
fn extending_targets_rejects_a_name_collision() {
    let extra = vec![variant("Crates", "A colliding host target.", false)];
    match declare_targets(&extra) {
        Err(CompositionError::NameCollision { name }) => assert_eq!(name, "Crates"),
        other => panic!("expected a name collision, got {:?}", other),
    }
}

#[test]
fn extending_targets_rejects_a_repeated_host_name() {
    let extra = vec![
        variant("Frontend", "Targets the web frontend.", false),
        variant("Frontend", "Declared twice.", false),
    ];
    match declare_targets(&extra) {
        Err(CompositionError::NameCollision { name }) => assert_eq!(name, "Frontend"),
        other => panic!("expected a name collision, got {:?}", other),
    }
}

#[test]
fn a_single_host_default_overrides_the_base_default() {
    let extra = vec![variant("Frontend", "Targets the web frontend.", true)];
    let merged = declare_targets(&extra).unwrap();
    let defaults: Vec<bool> = merged.variants.iter().map(|v| v.is_default).collect();
    assert_eq!(defaults, vec![false, false, false, false, true]);
    assert_eq!(defaults.iter().filter(|d| **d).count(), 1);
}

#[test]
fn a_second_host_default_is_rejected() {
    let extra = vec![
        variant("Frontend", "Targets the web frontend.", true),
        variant("Backend", "Targets the backend.", true),
    ];
    match declare_targets(&extra) {
        Err(CompositionError::MultipleDefaults) => {}
        other => panic!("expected a defaults error, got {:?}", other),
    }
}

#[test]
fn composing_without_a_host_default_keeps_the_base_default() {
    let extra = vec![variant("Frontend", "Targets the web frontend.", false)];
    let merged = declare_targets(&extra).unwrap();
    let defaults: Vec<bool> = merged.variants.iter().map(|v| v.is_default).collect();
    assert_eq!(defaults, vec![false, false, false, true, false]);
}

#[test]
fn the_command_registry_holds_twelve_commands() {
    let registry = base_commands();
    assert_eq!(
        names(&registry),
        vec![
            "Build",
            "Bump",
            "Fix",
            "Check",
            "Compile",
            "Coverage",
            "Doc",
            "Dependencies",
            "Publish",
            "Test",
            "Validate",
            "Vulnerabilities"
        ]
    );
    assert!(registry.variants.iter().all(|v| !v.is_default));
}

#[test]
fn selecting_commands_keeps_the_declared_order_and_docs() {
    let selected = vec!["Check".to_string(), "Build".to_string()];
    let voc = commands(&selected, &Vec::new()).unwrap();
    assert_eq!(names(&voc), vec!["Check", "Build"]);
    assert_eq!(voc.variants[1].doc, "Build the code.");
}

#[test]
fn selecting_an_unknown_command_enumerates_the_valid_names() {
    let selected = vec!["Checkk".to_string()];
    match commands(&selected, &Vec::new()) {
        Err(e @ CompositionError::UnknownCommand { .. }) => {
            let message = e.message();
            assert!(message.starts_with("Unknown command: Checkk\nPossible commands are:\n  "));
            assert!(message.contains("Build"));
            assert!(message.contains("Vulnerabilities"));
        }
        other => panic!("expected an unknown command, got {:?}", other),
    }
}

#[test]
fn selecting_a_command_twice_is_a_collision() {
    let selected = vec!["Check".to_string(), "Check".to_string()];
    match commands(&selected, &Vec::new()) {
        Err(CompositionError::NameCollision { name }) => assert_eq!(name, "Check"),
        other => panic!("expected a name collision, got {:?}", other),
    }
}

#[test]
fn host_command_variants_follow_the_selection() {
    let selected = vec!["Check".to_string()];
    let extra = vec![variant("Deploy", "Deploy the artifacts.", false)];
    let voc = commands(&selected, &extra).unwrap();
    assert_eq!(names(&voc), vec!["Check", "Deploy"]);
}

#[test]
fn the_check_subcommands_put_the_composite_default_first() {
    let voc = base_subcommands(&"CheckSubCommand".to_string()).unwrap();
    assert_eq!(names(&voc), vec!["All", "Audit", "Format", "Lint", "Typos"]);
    let defaults: Vec<bool> = voc.variants.iter().map(|v| v.is_default).collect();
    assert_eq!(defaults, vec![true, false, false, false, false]);
}

#[test]
fn the_bump_subcommands_have_no_default() {
    let voc = base_subcommands(&"BumpSubCommand".to_string()).unwrap();
    assert_eq!(names(&voc), vec!["Major", "Minor", "Patch"]);
    assert!(voc.variants.iter().all(|v| !v.is_default));
}

#[test]
fn an_unknown_subcommand_vocabulary_is_rejected_with_the_valid_names() {
    assert!(base_subcommands(&"NoSuchSubCommand".to_string()).is_none());
    match extend_subcommands(&"NoSuchSubCommand".to_string(), &Vec::new()) {
        Err(e @ CompositionError::UnknownCommand { .. }) => {
            let message = e.message();
            assert!(message.starts_with("Unknown command: NoSuchSubCommand"));
            assert!(message.contains("CheckSubCommand"));
            assert!(message.contains("VulnerabilitiesSubCommand"));
        }
        other => panic!("expected an unknown command, got {:?}", other),
    }
}

#[test]
fn extending_subcommands_preserves_the_base_and_appends_the_host() {
    let extra = vec![variant("Spelling", "Run the spelling check.", false)];
    let merged = extend_subcommands(&"FixSubCommand".to_string(), &extra).unwrap();
    assert_eq!(merged.base_count, 5);
    assert_eq!(
        names(&merged.vocabulary),
        vec!["All", "Audit", "Format", "Lint", "Typos", "Spelling"]
    );
    for v in 0..5 {
        assert_eq!(merged.downcast(v).unwrap(), v);
    }
    let err = merged.downcast(5).unwrap_err();
    assert_eq!(err.message(), "spelling target is not supported.");
}

#[test]
fn the_vulnerabilities_subcommands_are_all_present() {
    let voc = base_subcommands(&"VulnerabilitiesSubCommand".to_string()).unwrap();
    assert_eq!(voc.variants.len(), 12);
    assert_eq!(voc.variants[0].name, "All");
    assert!(voc.variants[0].is_default);
    assert_eq!(voc.variants[11].name, "ThreadSanitizer");
}
