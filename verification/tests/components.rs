use xtask_core::cmdargs::declare_command_args;
use xtask_core::cmdargs::downcast_command_args;
use xtask_core::cmdargs::CommandArgsValue;
use xtask_core::cmdargs::FieldDecl;
use xtask_core::confirm::Confirmation;
use xtask_core::filter::is_included;
use xtask_core::registry::extend_targets;
use xtask_core::registry::variant;
use xtask_core::target::Target;
use xtask_core::text::join_with;
use xtask_core::text::to_lowercase;
use xtask_core::ExecutionEnvironment;

fn strings(items: &[&str]) -> Vec<String> {
    items.iter().map(|s| s.to_string()).collect()
}

#[test]
fn empty_filters_include_every_package() {
    assert!(is_included(&"anything".to_string(), &Vec::new(), &Vec::new()));
}

#[test]
fn an_excluded_package_is_never_included() {
    let exclude = strings(&["alpha"]);
    assert!(!is_included(&"alpha".to_string(), &exclude, &Vec::new()));
    // Not even when the only-filter names it too.
    assert!(!is_included(&"alpha".to_string(), &exclude, &strings(&["alpha"])));
}

#[test]
fn a_nonempty_only_filter_admits_exactly_its_names() {
    let only = strings(&["alpha", "beta"]);
    assert!(is_included(&"alpha".to_string(), &Vec::new(), &only));
    assert!(!is_included(&"gamma".to_string(), &Vec::new(), &only));
}

#[test]
fn an_incoming_decision_resolves_without_a_prompt() {
    let c = Confirmation::Unset;
    assert_eq!(c.resolve(Some(true)), Some(true));
    assert_eq!(c.resolve(Some(false)), Some(false));
}

#[test]
fn the_first_resolution_prompts_and_the_reply_is_cached() {
    let mut c = Confirmation::Unset;
    // No incoming decision and nothing cached: a prompt is owed, exactly once.
    assert_eq!(c.resolve(None), None);
    c.record(true);
    // Every later resolution returns the cached reply without prompting.
    assert_eq!(c.resolve(None), Some(true));
    assert_eq!(c.resolve(None), Some(true));
    // An incoming decision still wins over the cache.
    assert_eq!(c.resolve(Some(false)), Some(false));
}

#[test]
fn all_packages_expands_to_crates_then_examples() {
    assert_eq!(
        Target::AllPackages.expansion(),
        vec![Target::Crates, Target::Examples]
    );
    assert!(!Target::AllPackages.expansion().contains(&Target::Workspace));
    assert_eq!(Target::Crates.expansion(), vec![Target::Crates]);
}

#[test]
fn the_default_target_is_the_workspace() {
    assert_eq!(Target::default(), Target::Workspace);
    assert_eq!(Target::Workspace.display_name(), "workspace");
    assert_eq!(Target::AllPackages.display_name(), "all-packages");
}

#[test]
fn the_default_execution_environment_is_std() {
    assert_eq!(ExecutionEnvironment::default(), ExecutionEnvironment::Std);
    assert_eq!(ExecutionEnvironment::NoStd.display_name(), "no-std");
    assert_eq!(ExecutionEnvironment::Std.display_name(), "std");
}

#[test]
fn lowercasing_folds_ascii_capitals_and_keeps_the_rest() {
    assert_eq!(to_lowercase("AllPackages"), "allpackages");
    assert_eq!(to_lowercase("already-lower"), "already-lower");
    assert_eq!(to_lowercase(""), "");
    assert_eq!(to_lowercase("A1-Z9"), "a1-z9");
}

#[test]
fn joining_names_uses_the_separator_between_items() {
    assert_eq!(join_with(&strings(&["a", "b", "c"]), ", "), "a, b, c");
    assert_eq!(join_with(&strings(&["solo"]), ", "), "solo");
    assert_eq!(join_with(&Vec::new(), ", "), "");
}

#[test]
fn command_args_get_the_standard_fields_in_order() {
    let shape = declare_command_args(&"CheckCmdArgs".to_string(), true, true, &Vec::new());
    let names: Vec<String> = shape.fields.iter().map(|f| f.name.clone()).collect();
    assert_eq!(names, vec!["target", "exclude", "only", "command"]);
    assert_eq!(shape.fields[1].doc, "Comma-separated list of excluded crates.");
}

#[test]
fn the_test_command_args_get_the_thread_count_field() {
    let shape = declare_command_args(&"TestCmdArgs".to_string(), true, true, &Vec::new());
    let names: Vec<String> = shape.fields.iter().map(|f| f.name.clone()).collect();
    assert_eq!(names, vec!["target", "exclude", "only", "threads", "command"]);
}

#[test]
fn host_fields_follow_the_standard_fields() {
    let extra = vec![FieldDecl {
        name: "release".to_string(),
        doc: "Build artifacts in release mode.".to_string(),
    }];
    let shape = declare_command_args(&"BuildCmdArgs".to_string(), true, false, &extra);
    let names: Vec<String> = shape.fields.iter().map(|f| f.name.clone()).collect();
    assert_eq!(names, vec!["target", "exclude", "only", "release"]);
}

#[test]
fn argument_values_downcast_when_target_and_subcommand_are_base_originated() {
    let targets = extend_targets(&vec![variant("Frontend", "Host target.", false)]).unwrap();
    let subcommands = xtask_core::registry::extend_subcommands(
        &"CheckSubCommand".to_string(),
        &vec![variant("Spelling", "Host subcommand.", false)],
    )
    .unwrap();
    let value = CommandArgsValue {
        target: Some(1),
        command: Some(2),
        exclude: strings(&["alpha"]),
        only: Vec::new(),
    };
    let base = downcast_command_args(&value, &targets, &subcommands).unwrap();
    assert_eq!(base.target, Some(1));
    assert_eq!(base.command, Some(2));
    assert_eq!(base.exclude, strings(&["alpha"]));
    assert_eq!(base.only, Vec::<String>::new());
}

#[test]
fn argument_values_with_a_host_only_target_fail_to_downcast() {
    let targets = extend_targets(&vec![variant("Frontend", "Host target.", false)]).unwrap();
    let subcommands = xtask_core::registry::extend_subcommands(
        &"CheckSubCommand".to_string(),
        &Vec::new(),
    )
    .unwrap();
    let value = CommandArgsValue {
        target: Some(4),
        command: Some(0),
        exclude: Vec::new(),
        only: Vec::new(),
    };
    let err = downcast_command_args(&value, &targets, &subcommands).unwrap_err();
    assert_eq!(err.variant, "frontend");
}
