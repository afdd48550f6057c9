use xtask_core::check::handle_command;
use xtask_core::check::run_audit;
use xtask_core::check::run_compile;
use xtask_core::check::run_format;
use xtask_core::check::run_lint;
use xtask_core::check::run_typos;
use xtask_core::check::CheckAction;
use xtask_core::check::CheckCmdArgs;
use xtask_core::check::CheckCommand;
use xtask_core::check::Dispatch;
use xtask_core::check::FilterWarning;
use xtask_core::check::Invocation;
use xtask_core::check::Prompt;
use xtask_core::check::Scope;
use xtask_core::check::WorkspaceMembers;
use xtask_core::target::Target;

fn members() -> WorkspaceMembers {
    WorkspaceMembers {
        crates: vec!["alpha".to_string(), "gamma".to_string(), "beta".to_string()],
        examples: vec!["demo".to_string()],
    }
}

fn strings(items: &[&str]) -> Vec<String> {
    items.iter().map(|s| s.to_string()).collect()
}

fn workspace(action: CheckAction) -> Invocation {
    Invocation { action, scope: Scope::Workspace }
}

fn package(action: CheckAction, name: &str) -> Invocation {
    Invocation { action, scope: Scope::Package(name.to_string()) }
}

#[test]
fn check_all_at_workspace_scope_warns_then_runs_the_four_checks_in_order() {
    let args = CheckCmdArgs {
        target: Target::Workspace,
        exclude: Vec::new(),
        only: strings(&["foo"]),
        command: CheckCommand::All,
    };
    // The only-filter has no effect at the workspace scope: warn, then ask.
    let first = handle_command(&args, None, &members());
    assert_eq!(first.warning, Some(FilterWarning::ExcludeAndOnlyIgnored));
    assert_eq!(first.dispatch, Dispatch::NeedConfirmation(Prompt::AllChecks));
    // Confirmed: audit, format, lint, typos, each against the whole
    // workspace, in that order.
    let second = handle_command(&args, Some(true), &members());
    assert_eq!(second.warning, None);
    assert_eq!(
        second.dispatch,
        Dispatch::Run(vec![
            workspace(CheckAction::Audit),
            workspace(CheckAction::Format),
            workspace(CheckAction::Lint),
            workspace(CheckAction::Typos),
        ])
    );
}

#[test]
fn check_compile_on_crates_keeps_only_the_named_packages_in_order() {
    let args = CheckCmdArgs {
        target: Target::Crates,
        exclude: Vec::new(),
        only: strings(&["alpha", "beta"]),
        command: CheckCommand::Compile,
    };
    let outcome = handle_command(&args, None, &members());
    assert_eq!(outcome.warning, None);
    assert_eq!(
        outcome.dispatch,
        Dispatch::Run(vec![
            package(CheckAction::Compile, "alpha"),
            package(CheckAction::Compile, "beta"),
        ])
    );
}

#[test]
fn a_declined_format_runs_nothing() {
    let args = CheckCmdArgs {
        target: Target::Workspace,
        exclude: Vec::new(),
        only: Vec::new(),
        command: CheckCommand::Format,
    };
    let first = handle_command(&args, None, &members());
    assert_eq!(first.warning, None);
    assert_eq!(first.dispatch, Dispatch::NeedConfirmation(Prompt::FormatWorkspace));
    // Declined: no external invocation at all, and that is not an error.
    let second = handle_command(&args, Some(false), &members());
    assert_eq!(second.dispatch, Dispatch::Run(Vec::new()));
}

#[test]
fn compile_never_prompts_and_proceeds_without_a_decision() {
    let plan = run_compile(&Target::Workspace, &Vec::new(), &Vec::new(), None, &members());
    assert_eq!(plan, vec![workspace(CheckAction::Compile)]);
    let declined = run_compile(&Target::Workspace, &Vec::new(), &Vec::new(), Some(false), &members());
    assert_eq!(declined, Vec::new());
}

#[test]
fn compile_on_all_packages_expands_to_crates_then_examples() {
    let plan = run_compile(&Target::AllPackages, &Vec::new(), &Vec::new(), None, &members());
    assert_eq!(
        plan,
        vec![
            package(CheckAction::Compile, "alpha"),
            package(CheckAction::Compile, "gamma"),
            package(CheckAction::Compile, "beta"),
            package(CheckAction::Compile, "demo"),
        ]
    );
}

#[test]
fn excluded_packages_are_skipped() {
    let plan = run_compile(
        &Target::Crates,
        &strings(&["gamma"]),
        &Vec::new(),
        None,
        &members(),
    );
    assert_eq!(
        plan,
        vec![
            package(CheckAction::Compile, "alpha"),
            package(CheckAction::Compile, "beta"),
        ]
    );
}

#[test]
fn format_asks_a_scope_specific_question_per_target() {
    let none: Option<bool> = None;
    let ex = Vec::new();
    let only = Vec::new();
    let m = members();
    assert_eq!(
        run_format(&Target::Crates, &ex, &only, none, &m),
        Dispatch::NeedConfirmation(Prompt::FormatCrates)
    );
    assert_eq!(
        run_format(&Target::Examples, &ex, &only, none, &m),
        Dispatch::NeedConfirmation(Prompt::FormatExamples)
    );
    assert_eq!(
        run_format(&Target::AllPackages, &ex, &only, none, &m),
        Dispatch::NeedConfirmation(Prompt::FormatAllPackages)
    );
    assert_eq!(
        Prompt::FormatCrates.text(),
        "This will run format with auto-fix on all crates of the workspace."
    );
}

#[test]
fn lint_on_all_packages_runs_crates_then_examples_once_confirmed() {
    let out = run_lint(&Target::AllPackages, &Vec::new(), &Vec::new(), Some(true), &members());
    assert_eq!(
        out,
        Dispatch::Run(vec![
            package(CheckAction::Lint, "alpha"),
            package(CheckAction::Lint, "gamma"),
            package(CheckAction::Lint, "beta"),
            package(CheckAction::Lint, "demo"),
        ])
    );
}

#[test]
fn audit_and_typos_prompt_once_and_run_workspace_wide() {
    assert_eq!(run_audit(None), Dispatch::NeedConfirmation(Prompt::Audit));
    assert_eq!(run_audit(Some(true)), Dispatch::Run(vec![workspace(CheckAction::Audit)]));
    assert_eq!(run_audit(Some(false)), Dispatch::Run(Vec::new()));
    assert_eq!(run_typos(None), Dispatch::NeedConfirmation(Prompt::Typos));
    assert_eq!(run_typos(Some(true)), Dispatch::Run(vec![workspace(CheckAction::Typos)]));
}

#[test]
fn the_compile_warning_checks_the_only_filter_alone() {
    let args = CheckCmdArgs {
        target: Target::Workspace,
        exclude: strings(&["alpha"]),
        only: Vec::new(),
        command: CheckCommand::Compile,
    };
    // The compile action inspects the exclude-filter elsewhere: no warning.
    let outcome = handle_command(&args, None, &members());
    assert_eq!(outcome.warning, None);
    // With an only-filter the warning comes, and with its own text.
    let args = CheckCmdArgs { only: strings(&["alpha"]), exclude: Vec::new(), ..args };
    let outcome = handle_command(&args, None, &members());
    assert_eq!(outcome.warning, Some(FilterWarning::OnlyIgnored));
    assert_eq!(
        FilterWarning::OnlyIgnored.message(),
        "The only argument is ignored at the workspace scope."
    );
    assert_ne!(
        FilterWarning::OnlyIgnored.message(),
        FilterWarning::ExcludeAndOnlyIgnored.message()
    );
}

#[test]
fn other_commands_warn_on_either_filter_at_workspace_scope() {
    let args = CheckCmdArgs {
        target: Target::Workspace,
        exclude: strings(&["alpha"]),
        only: Vec::new(),
        command: CheckCommand::Lint,
    };
    let outcome = handle_command(&args, None, &members());
    assert_eq!(outcome.warning, Some(FilterWarning::ExcludeAndOnlyIgnored));
}

#[test]
fn no_warning_once_a_decision_came_in() {
    let args = CheckCmdArgs {
        target: Target::Workspace,
        exclude: strings(&["alpha"]),
        only: strings(&["beta"]),
        command: CheckCommand::Lint,
    };
    let outcome = handle_command(&args, Some(true), &members());
    assert_eq!(outcome.warning, None);
}

#[test]
fn an_incoming_decision_never_prompts_again() {
    let m = members();
    for command in [
        CheckCommand::Audit,
        CheckCommand::Compile,
        CheckCommand::Format,
        CheckCommand::Lint,
        CheckCommand::Typos,
        CheckCommand::All,
    ] {
        for target in [Target::Workspace, Target::Crates, Target::Examples, Target::AllPackages] {
            let args = CheckCmdArgs {
                target,
                exclude: Vec::new(),
                only: Vec::new(),
                command,
            };
            let outcome = handle_command(&args, Some(true), &m);
            assert!(matches!(outcome.dispatch, Dispatch::Run(_)));
        }
    }
}

#[test]
fn group_titles_and_failure_contexts_carry_the_package() {
    let inv = package(CheckAction::Compile, "alpha");
    assert_eq!(inv.group_title(), "Compile: alpha");
    assert_eq!(inv.failure_context(), "Compilation failed for alpha");
    let inv = workspace(CheckAction::Audit);
    assert_eq!(inv.group_title(), "Audit Rust Dependencies");
    assert_eq!(inv.failure_context(), "Audit check execution failed");
    let inv = package(CheckAction::Lint, "demo");
    assert_eq!(inv.group_title(), "Lint: demo");
    assert_eq!(inv.failure_context(), "Lint fix execution failed for demo");
}
