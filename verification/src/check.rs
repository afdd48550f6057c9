//! The check command's dispatch engine.
//!
//! Everything here only decides: given the parsed arguments, the incoming
//! confirmation and the workspace membership, the engine says which warning
//! to emit, whether a confirmation prompt is owed, and exactly which external
//! invocations to make, in order.  The caller performs the prompt and runs
//! the invocations one by one, stopping at the first failure.

use vstd::prelude::*;

use crate::filter::included;
use crate::filter::name_views;
use crate::target::Target;

verus! {

/// The check subcommand: five leaf actions and the composite that runs every
/// check with autofix.
#[derive(Clone, Copy, PartialEq, Eq, Structural, Debug)]
pub enum CheckCommand {
    Audit,
    Compile,
    Format,
    Lint,
    Typos,
    All,
}

/// The parsed arguments of one check invocation.
#[derive(Clone, Debug)]
pub struct CheckCmdArgs {
    /// Target to check for.
    pub target: Target,
    /// Packages excluded from package-level dispatch.
    pub exclude: Vec<String>,
    /// Packages included exclusively in package-level dispatch.
    pub only: Vec<String>,
    /// The selected subcommand.
    pub command: CheckCommand,
}

/// The workspace membership, by category, in enumeration order.  It is
/// captured once at the start of an invocation and read-only afterwards.
#[derive(Clone, Debug)]
pub struct WorkspaceMembers {
    pub crates: Vec<String>,
    pub examples: Vec<String>,
}

/// One leaf check action.
#[derive(Clone, Copy, PartialEq, Eq, Structural, Debug)]
pub enum CheckAction {
    Audit,
    Compile,
    Format,
    Lint,
    Typos,
}

/// The scope of one external invocation: the whole workspace, or one
/// package.
#[derive(Clone, PartialEq, Debug)]
pub enum Scope {
    Workspace,
    Package(String),
}

/// The mathematical shape of a scope.
pub enum ScopeView {
    Workspace,
    Package(Seq<char>),
}

impl View for Scope {
    type V = ScopeView;

    open spec fn view(&self) -> ScopeView {
        match self {
            Scope::Workspace => ScopeView::Workspace,
            Scope::Package(n) => ScopeView::Package(n@),
        }
    }
}

/// One planned external invocation: a leaf action applied to one concrete
/// scope.
#[derive(Clone, PartialEq, Debug)]
pub struct Invocation {
    pub action: CheckAction,
    pub scope: Scope,
}

/// The mathematical shape of an invocation.
pub struct InvocationView {
    pub action: CheckAction,
    pub scope: ScopeView,
}

impl View for Invocation {
    type V = InvocationView;

    open spec fn view(&self) -> InvocationView {
        InvocationView { action: self.action, scope: self.scope@ }
    }
}

/// The views of a list of invocations.
pub open spec fn views_of(steps: Seq<Invocation>) -> Seq<InvocationView> {
    steps.map_values(|i: Invocation| i@)
}

/// Builds one invocation view.
pub open spec fn iview(action: CheckAction, scope: ScopeView) -> InvocationView {
    InvocationView { action, scope }
}

impl Invocation {
    /// The title of the logging group that brackets this invocation.
    pub fn group_title(&self) -> (r: String)
        ensures
            (match (self.action, self.scope@) {
                (CheckAction::Audit, _) => r@ == "Audit Rust Dependencies"@,
                (CheckAction::Compile, ScopeView::Workspace) => r@ == "Compile Workspace"@,
                (CheckAction::Compile, ScopeView::Package(n)) => r@ == "Compile: "@ + n,
                (CheckAction::Format, ScopeView::Workspace) => r@ == "Format Workspace"@,
                (CheckAction::Format, ScopeView::Package(n)) => r@ == "Format: "@ + n,
                (CheckAction::Lint, ScopeView::Workspace) => r@ == "Lint Workspace"@,
                (CheckAction::Lint, ScopeView::Package(n)) => r@ == "Lint: "@ + n,
                (CheckAction::Typos, _) => r@ == "Typos"@,
            }),
    {
        match self.action {
            CheckAction::Audit => String::from_str("Audit Rust Dependencies"),
            CheckAction::Typos => String::from_str("Typos"),
            CheckAction::Compile => {
                match &self.scope {
                    Scope::Workspace => String::from_str("Compile Workspace"),
                    Scope::Package(n) => {
                        let mut out = String::from_str("Compile: ");
                        out.append(n.as_str());
                        out
                    },
                }
            },
            CheckAction::Format => {
                match &self.scope {
                    Scope::Workspace => String::from_str("Format Workspace"),
                    Scope::Package(n) => {
                        let mut out = String::from_str("Format: ");
                        out.append(n.as_str());
                        out
                    },
                }
            },
            CheckAction::Lint => {
                match &self.scope {
                    Scope::Workspace => String::from_str("Lint Workspace"),
                    Scope::Package(n) => {
                        let mut out = String::from_str("Lint: ");
                        out.append(n.as_str());
                        out
                    },
                }
            },
        }
    }

    /// The context attached to a failure of this invocation.
    pub fn failure_context(&self) -> (r: String)
        ensures
            (match (self.action, self.scope@) {
                (CheckAction::Audit, _) => r@ == "Audit check execution failed"@,
                (CheckAction::Compile, ScopeView::Workspace) => r@ == "Workspace compilation failed"@,
                (CheckAction::Compile, ScopeView::Package(n)) => r@ == "Compilation failed for "@
                    + n,
                (CheckAction::Format, ScopeView::Workspace) => r@ == "Workspace compilation failed"@,
                (CheckAction::Format, ScopeView::Package(n)) => r@
                    == "Format check execution failed for "@ + n,
                (CheckAction::Lint, ScopeView::Workspace) => r@ == "Workspace lint failed"@,
                (CheckAction::Lint, ScopeView::Package(n)) => r@
                    == "Lint fix execution failed for "@ + n,
                (CheckAction::Typos, _) => r@
                    == "Some typos have been found and cannot be fixed."@,
            }),
    {
        match self.action {
            CheckAction::Audit => String::from_str("Audit check execution failed"),
            CheckAction::Typos => String::from_str("Some typos have been found and cannot be fixed."),
            CheckAction::Compile => {
                match &self.scope {
                    Scope::Workspace => String::from_str("Workspace compilation failed"),
                    Scope::Package(n) => {
                        let mut out = String::from_str("Compilation failed for ");
                        out.append(n.as_str());
                        out
                    },
                }
            },
            CheckAction::Format => {
                match &self.scope {
                    Scope::Workspace => String::from_str("Workspace compilation failed"),
                    Scope::Package(n) => {
                        let mut out = String::from_str("Format check execution failed for ");
                        out.append(n.as_str());
                        out
                    },
                }
            },
            CheckAction::Lint => {
                match &self.scope {
                    Scope::Workspace => String::from_str("Workspace lint failed"),
                    Scope::Package(n) => {
                        let mut out = String::from_str("Lint fix execution failed for ");
                        out.append(n.as_str());
                        out
                    },
                }
            },
        }
    }
}

/// The non-fatal warning that package filters are ignored at the workspace
/// scope.
#[derive(Clone, Copy, PartialEq, Eq, Structural, Debug)]
pub enum FilterWarning {
    /// Only the only-filter is checked: the compile action inspects the
    /// exclude-filter elsewhere.
    OnlyIgnored,
    /// Both filters are checked together.
    ExcludeAndOnlyIgnored,
}

impl FilterWarning {
    /// The warning text.
    pub fn message(&self) -> (r: String)
        ensures
            *self == FilterWarning::OnlyIgnored ==> r@
                == "The only argument is ignored at the workspace scope."@,
            *self == FilterWarning::ExcludeAndOnlyIgnored ==> r@
                == "The exclude and only arguments are ignored at the workspace scope."@,
    {
        match self {
            FilterWarning::OnlyIgnored => String::from_str(
                "The only argument is ignored at the workspace scope.",
            ),
            FilterWarning::ExcludeAndOnlyIgnored => String::from_str(
                "The exclude and only arguments are ignored at the workspace scope.",
            ),
        }
    }
}

/// The confirmation prompt a dispatch asks for, when no decision came in.
#[derive(Clone, Copy, PartialEq, Eq, Structural, Debug)]
pub enum Prompt {
    AllChecks,
    Audit,
    FormatWorkspace,
    FormatCrates,
    FormatExamples,
    FormatAllPackages,
    LintWorkspace,
    LintCrates,
    LintExamples,
    LintAllPackages,
    Typos,
}

impl Prompt {
    /// The question shown to the user.
    pub fn text(&self) -> (r: String)
        ensures
            (match *self {
                Prompt::AllChecks => r@
                    == "This will run all the checks with autofix on all members of the workspace."@,
                Prompt::Audit => r@
                    == "This will run the audit check with autofix mode enabled."@,
                Prompt::FormatWorkspace => r@
                    == "This will run format with auto-fix on the workspace."@,
                Prompt::FormatCrates => r@
                    == "This will run format with auto-fix on all crates of the workspace."@,
                Prompt::FormatExamples => r@
                    == "This will run format with auto-fix on all examples of the workspace."@,
                Prompt::FormatAllPackages => r@
                    == "This will run format check with auto-fix on all packages of the workspace."@,
                Prompt::LintWorkspace => r@
                    == "This will run lint with auto-fix on the workspace."@,
                Prompt::LintCrates => r@
                    == "This will run lint with auto-fix on all crates of the workspace."@,
                Prompt::LintExamples => r@
                    == "This will run lint with auto-fix on all examples of the workspace."@,
                Prompt::LintAllPackages => r@
                    == "This will run lint check with auto-fix on all packages of the workspace."@,
                Prompt::Typos => r@
                    == "This will look for typos in the source code check and auto-fix them."@,
            }),
    {
        match self {
            Prompt::AllChecks => String::from_str(
                "This will run all the checks with autofix on all members of the workspace.",
            ),
            Prompt::Audit => String::from_str(
                "This will run the audit check with autofix mode enabled.",
            ),
            Prompt::FormatWorkspace => String::from_str(
                "This will run format with auto-fix on the workspace.",
            ),
            Prompt::FormatCrates => String::from_str(
                "This will run format with auto-fix on all crates of the workspace.",
            ),
            Prompt::FormatExamples => String::from_str(
                "This will run format with auto-fix on all examples of the workspace.",
            ),
            Prompt::FormatAllPackages => String::from_str(
                "This will run format check with auto-fix on all packages of the workspace.",
            ),
            Prompt::LintWorkspace => String::from_str(
                "This will run lint with auto-fix on the workspace.",
            ),
            Prompt::LintCrates => String::from_str(
                "This will run lint with auto-fix on all crates of the workspace.",
            ),
            Prompt::LintExamples => String::from_str(
                "This will run lint with auto-fix on all examples of the workspace.",
            ),
            Prompt::LintAllPackages => String::from_str(
                "This will run lint check with auto-fix on all packages of the workspace.",
            ),
            Prompt::Typos => String::from_str(
                "This will look for typos in the source code check and auto-fix them.",
            ),
        }
    }
}

/// What one dispatch step decided: either a confirmation prompt is owed —
/// the caller asks it and dispatches again with the reply — or the ordered
/// list of external invocations to run.
#[derive(Clone, PartialEq, Debug)]
pub enum Dispatch {
    NeedConfirmation(Prompt),
    Run(Vec<Invocation>),
}

/// The outcome of handling a check command: an optional filter warning, and
/// the dispatch decision.
#[derive(Clone, Debug)]
pub struct DispatchOutcome {
    pub warning: Option<FilterWarning>,
    pub dispatch: Dispatch,
}

/// The invocations for one action over a package list, keeping the members
/// the filters admit, in enumeration order.
pub open spec fn package_plan(
    action: CheckAction,
    members: Seq<Seq<char>>,
    exclude: Seq<Seq<char>>,
    only: Seq<Seq<char>>,
) -> Seq<InvocationView>
    decreases members.len(),
{
    if members.len() == 0 {
        Seq::empty()
    } else {
        package_plan(action, members.drop_last(), exclude, only) + (if included(
            members.last(),
            exclude,
            only,
        ) {
            seq![iview(action, ScopeView::Package(members.last()))]
        } else {
            Seq::empty()
        })
    }
}

/// The invocations for one action over one target: a single workspace-wide
/// invocation at the workspace scope, one filtered invocation per package at
/// the package scopes, and — for the composite target — the crates followed
/// by the examples, never the workspace.
pub open spec fn target_plan(
    action: CheckAction,
    target: Target,
    exclude: Seq<Seq<char>>,
    only: Seq<Seq<char>>,
    crates: Seq<Seq<char>>,
    examples: Seq<Seq<char>>,
) -> Seq<InvocationView> {
    match target {
        Target::Workspace => seq![iview(action, ScopeView::Workspace)],
        Target::Crates => package_plan(action, crates, exclude, only),
        Target::Examples => package_plan(action, examples, exclude, only),
        Target::AllPackages => package_plan(action, crates, exclude, only) + package_plan(
            action,
            examples,
            exclude,
            only,
        ),
    }
}

/// The audit invocations: one workspace-wide audit, or nothing when the
/// action was declined.
pub open spec fn audit_plan(go: bool) -> Seq<InvocationView> {
    if go {
        seq![iview(CheckAction::Audit, ScopeView::Workspace)]
    } else {
        Seq::empty()
    }
}

/// The typos invocations: one workspace-wide run, or nothing when the
/// action was declined.
pub open spec fn typos_plan(go: bool) -> Seq<InvocationView> {
    if go {
        seq![iview(CheckAction::Typos, ScopeView::Workspace)]
    } else {
        Seq::empty()
    }
}

/// A target plan gated by the confirmation decision: declining leaves
/// nothing to run.
pub open spec fn gated_target_plan(
    action: CheckAction,
    target: Target,
    exclude: Seq<Seq<char>>,
    only: Seq<Seq<char>>,
    crates: Seq<Seq<char>>,
    examples: Seq<Seq<char>>,
    go: bool,
) -> Seq<InvocationView> {
    if go {
        target_plan(action, target, exclude, only, crates, examples)
    } else {
        Seq::empty()
    }
}

/// The compile invocations: compiling is read-only, so it proceeds unless
/// the decision was an explicit no.
pub open spec fn compile_plan(
    target: Target,
    exclude: Seq<Seq<char>>,
    only: Seq<Seq<char>>,
    crates: Seq<Seq<char>>,
    examples: Seq<Seq<char>>,
    answer: Option<bool>,
) -> Seq<InvocationView> {
    if answer == Option::<bool>::Some(false) {
        Seq::empty()
    } else {
        target_plan(CheckAction::Compile, target, exclude, only, crates, examples)
    }
}

/// The composite plan: every check with autofix, in the declared order of
/// the leaves — audit, format, lint, typos — each over the same target and
/// filters, all under the one confirmation decision.
pub open spec fn all_plan(
    target: Target,
    exclude: Seq<Seq<char>>,
    only: Seq<Seq<char>>,
    crates: Seq<Seq<char>>,
    examples: Seq<Seq<char>>,
    go: bool,
) -> Seq<InvocationView> {
    audit_plan(go) + gated_target_plan(CheckAction::Format, target, exclude, only, crates, examples, go)
        + gated_target_plan(CheckAction::Lint, target, exclude, only, crates, examples, go)
        + typos_plan(go)
}

/// The prompt the format dispatch asks for each target.
pub open spec fn format_prompt(target: Target) -> Prompt {
    match target {
        Target::Workspace => Prompt::FormatWorkspace,
        Target::Crates => Prompt::FormatCrates,
        Target::Examples => Prompt::FormatExamples,
        Target::AllPackages => Prompt::FormatAllPackages,
    }
}

/// The prompt the lint dispatch asks for each target.
pub open spec fn lint_prompt(target: Target) -> Prompt {
    match target {
        Target::Workspace => Prompt::LintWorkspace,
        Target::Crates => Prompt::LintCrates,
        Target::Examples => Prompt::LintExamples,
        Target::AllPackages => Prompt::LintAllPackages,
    }
}

/// The warning policy: warnings are considered only at the top of an
/// invocation (no decision came in yet) and only at the workspace scope,
/// where package filters have no effect.  The compile action checks the
/// only-filter alone — its exclude-filter is inspected elsewhere — while
/// every other action checks both filters together.  The asymmetry is
/// intentional and preserved.
pub open spec fn warning_spec(
    command: CheckCommand,
    target: Target,
    exclude: Seq<Seq<char>>,
    only: Seq<Seq<char>>,
    answer: Option<bool>,
) -> Option<FilterWarning> {
    if answer is Some {
        Option::None
    } else if command == CheckCommand::Compile {
        if target == Target::Workspace && only.len() > 0 {
            Option::Some(FilterWarning::OnlyIgnored)
        } else {
            Option::None
        }
    } else {
        if target == Target::Workspace && (exclude.len() > 0 || only.len() > 0) {
            Option::Some(FilterWarning::ExcludeAndOnlyIgnored)
        } else {
            Option::None
        }
    }
}

/// One invocation per admitted member of a package list.
fn package_invocations(
    action: CheckAction,
    members: &Vec<String>,
    excluded: &Vec<String>,
    only: &Vec<String>,
) -> (r: Vec<Invocation>)
    ensures
        views_of(r@) == package_plan(
            action,
            name_views(members@),
            name_views(excluded@),
            name_views(only@),
        ),
{
    let ghost mviews = name_views(members@);
    let ghost ex = name_views(excluded@);
    let ghost on = name_views(only@);
    let mut out: Vec<Invocation> = Vec::new();
    let mut i: usize = 0;
    while i < members.len()
        invariant
            i <= members@.len(),
            mviews == name_views(members@),
            ex == name_views(excluded@),
            on == name_views(only@),
            views_of(out@) == package_plan(action, mviews.take(i as int), ex, on),
        decreases members@.len() - i,
    {
        proof {
            assert(mviews.take(i + 1).drop_last() =~= mviews.take(i as int));
            assert(mviews.take(i + 1).last() == members@[i as int]@);
        }
        if crate::filter::is_included(&members[i], excluded, only) {
            out.push(Invocation { action, scope: Scope::Package(members[i].clone()) });
            proof {
                assert(views_of(out@) =~= views_of(out@.drop_last()) + seq![
                    iview(action, ScopeView::Package(members@[i as int]@)),
                ]);
            }
        }
        proof {
            assert(views_of(out@) =~= package_plan(action, mviews.take(i + 1), ex, on));
        }
        i += 1;
    }
    proof {
        assert(mviews.take(members@.len() as int) =~= mviews);
    }
    out
}

/// The invocations for one action over one target.
fn action_invocations(
    action: CheckAction,
    target: &Target,
    excluded: &Vec<String>,
    only: &Vec<String>,
    members: &WorkspaceMembers,
) -> (r: Vec<Invocation>)
    ensures
        views_of(r@) == target_plan(
            action,
            *target,
            name_views(excluded@),
            name_views(only@),
            name_views(members.crates@),
            name_views(members.examples@),
        ),
{
    match target {
        Target::Workspace => {
            let mut out: Vec<Invocation> = Vec::new();
            out.push(Invocation { action, scope: Scope::Workspace });
            proof {
                assert(views_of(out@) =~= seq![iview(action, ScopeView::Workspace)]);
            }
            out
        },
        Target::Crates => package_invocations(action, &members.crates, excluded, only),
        Target::Examples => package_invocations(action, &members.examples, excluded, only),
        Target::AllPackages => {
            let mut out = package_invocations(action, &members.crates, excluded, only);
            let mut tail = package_invocations(action, &members.examples, excluded, only);
            let ghost head_views = views_of(out@);
            let ghost tail_views = views_of(tail@);
            out.append(&mut tail);
            proof {
                assert(views_of(out@) =~= head_views + tail_views);
            }
            out
        },
    }
}

/// Plans the audit action once the confirmation is decided.
fn audit_invocations(go: bool) -> (r: Vec<Invocation>)
    ensures
        views_of(r@) == audit_plan(go),
{
    let mut out: Vec<Invocation> = Vec::new();
    if go {
        out.push(Invocation { action: CheckAction::Audit, scope: Scope::Workspace });
    }
    proof {
        assert(views_of(out@) =~= audit_plan(go));
    }
    out
}

/// Plans the typos action once the confirmation is decided.
fn typos_invocations(go: bool) -> (r: Vec<Invocation>)
    ensures
        views_of(r@) == typos_plan(go),
{
    let mut out: Vec<Invocation> = Vec::new();
    if go {
        out.push(Invocation { action: CheckAction::Typos, scope: Scope::Workspace });
    }
    proof {
        assert(views_of(out@) =~= typos_plan(go));
    }
    out
}

/// Dispatches the audit action: asks once when no decision came in, runs
/// the workspace-wide audit when confirmed, and runs nothing when declined.
pub fn run_audit(answer: Option<bool>) -> (r: Dispatch)
    ensures
        answer is None ==> r == Dispatch::NeedConfirmation(Prompt::Audit),
        answer matches Option::Some(b) ==> (r matches Dispatch::Run(steps) && views_of(steps@)
            == audit_plan(b)),
{
    match answer {
        Option::None => Dispatch::NeedConfirmation(Prompt::Audit),
        Option::Some(b) => Dispatch::Run(audit_invocations(b)),
    }
}

/// Dispatches the typos action, as [`run_audit`] does the audit.
pub fn run_typos(answer: Option<bool>) -> (r: Dispatch)
    ensures
        answer is None ==> r == Dispatch::NeedConfirmation(Prompt::Typos),
        answer matches Option::Some(b) ==> (r matches Dispatch::Run(steps) && views_of(steps@)
            == typos_plan(b)),
{
    match answer {
        Option::None => Dispatch::NeedConfirmation(Prompt::Typos),
        Option::Some(b) => Dispatch::Run(typos_invocations(b)),
    }
}

/// Plans the compile action.  Compiling only reads, so it never prompts: it
/// proceeds unless the decision was an explicit no, expanding the composite
/// target into the crates and then the examples.
pub fn run_compile(
    target: &Target,
    excluded: &Vec<String>,
    only: &Vec<String>,
    answer: Option<bool>,
    members: &WorkspaceMembers,
) -> (r: Vec<Invocation>)
    ensures
        views_of(r@) == compile_plan(
            *target,
            name_views(excluded@),
            name_views(only@),
            name_views(members.crates@),
            name_views(members.examples@),
            answer,
        ),
{
    let proceed = match answer {
        Option::Some(b) => b,
        Option::None => true,
    };
    if !proceed {
        let out: Vec<Invocation> = Vec::new();
        proof {
            assert(views_of(out@) =~= Seq::<InvocationView>::empty());
        }
        out
    } else {
        action_invocations(CheckAction::Compile, target, excluded, only, members)
    }
}

/// Dispatches the format action: asks a target-specific question when no
/// decision came in, and otherwise plans the formatting of the selected
/// target under the decision.
pub fn run_format(
    target: &Target,
    excluded: &Vec<String>,
    only: &Vec<String>,
    answer: Option<bool>,
    members: &WorkspaceMembers,
) -> (r: Dispatch)
    ensures
        answer is None ==> r == Dispatch::NeedConfirmation(format_prompt(*target)),
        answer matches Option::Some(b) ==> (r matches Dispatch::Run(steps) && views_of(steps@)
            == gated_target_plan(
            CheckAction::Format,
            *target,
            name_views(excluded@),
            name_views(only@),
            name_views(members.crates@),
            name_views(members.examples@),
            b,
        )),
{
    match answer {
        Option::None => {
            let prompt = match target {
                Target::Workspace => Prompt::FormatWorkspace,
                Target::Crates => Prompt::FormatCrates,
                Target::Examples => Prompt::FormatExamples,
                Target::AllPackages => Prompt::FormatAllPackages,
            };
            Dispatch::NeedConfirmation(prompt)
        },
        Option::Some(b) => {
            if b {
                Dispatch::Run(action_invocations(CheckAction::Format, target, excluded, only, members))
            } else {
                Dispatch::Run(Vec::new())
            }
        },
    }
}

/// Dispatches the lint action, as [`run_format`] does formatting.
pub fn run_lint(
    target: &Target,
    excluded: &Vec<String>,
    only: &Vec<String>,
    answer: Option<bool>,
    members: &WorkspaceMembers,
) -> (r: Dispatch)
    ensures
        answer is None ==> r == Dispatch::NeedConfirmation(lint_prompt(*target)),
        answer matches Option::Some(b) ==> (r matches Dispatch::Run(steps) && views_of(steps@)
            == gated_target_plan(
            CheckAction::Lint,
            *target,
            name_views(excluded@),
            name_views(only@),
            name_views(members.crates@),
            name_views(members.examples@),
            b,
        )),
{
    match answer {
        Option::None => {
            let prompt = match target {
                Target::Workspace => Prompt::LintWorkspace,
                Target::Crates => Prompt::LintCrates,
                Target::Examples => Prompt::LintExamples,
                Target::AllPackages => Prompt::LintAllPackages,
            };
            Dispatch::NeedConfirmation(prompt)
        },
        Option::Some(b) => {
            if b {
                Dispatch::Run(action_invocations(CheckAction::Lint, target, excluded, only, members))
            } else {
                Dispatch::Run(Vec::new())
            }
        },
    }
}

/// Handles one check command.
///
/// The outcome carries the filter warning the policy asks for, and either
/// the one confirmation prompt this invocation owes — the caller asks it and
/// calls again with the reply, which never prompts a second time — or the
/// ordered invocations to run.  The composite subcommand resolves its single
/// confirmation before decomposing, then plans audit, format, lint and typos
/// in that order under the one decision; the compile action stands apart
/// from the composite, as a package-granularity build step rather than a
/// check with autofix.
pub fn handle_command(args: &CheckCmdArgs, answer: Option<bool>, members: &WorkspaceMembers) -> (r:
    DispatchOutcome)
    ensures
        r.warning == warning_spec(
            args.command,
            args.target,
            name_views(args.exclude@),
            name_views(args.only@),
            answer,
        ),
        answer is Some ==> r.dispatch is Run,
        (match args.command {
            CheckCommand::Audit => (match answer {
                Option::None => r.dispatch == Dispatch::NeedConfirmation(Prompt::Audit),
                Option::Some(b) => r.dispatch matches Dispatch::Run(steps) && views_of(steps@)
                    == audit_plan(b),
            }),
            CheckCommand::Typos => (match answer {
                Option::None => r.dispatch == Dispatch::NeedConfirmation(Prompt::Typos),
                Option::Some(b) => r.dispatch matches Dispatch::Run(steps) && views_of(steps@)
                    == typos_plan(b),
            }),
            CheckCommand::Compile => r.dispatch matches Dispatch::Run(steps) && views_of(steps@)
                == compile_plan(
                args.target,
                name_views(args.exclude@),
                name_views(args.only@),
                name_views(members.crates@),
                name_views(members.examples@),
                answer,
            ),
            CheckCommand::Format => (match answer {
                Option::None => r.dispatch == Dispatch::NeedConfirmation(
                    format_prompt(args.target),
                ),
                Option::Some(b) => r.dispatch matches Dispatch::Run(steps) && views_of(steps@)
                    == gated_target_plan(
                    CheckAction::Format,
                    args.target,
                    name_views(args.exclude@),
                    name_views(args.only@),
                    name_views(members.crates@),
                    name_views(members.examples@),
                    b,
                ),
            }),
            CheckCommand::Lint => (match answer {
                Option::None => r.dispatch == Dispatch::NeedConfirmation(lint_prompt(args.target)),
                Option::Some(b) => r.dispatch matches Dispatch::Run(steps) && views_of(steps@)
                    == gated_target_plan(
                    CheckAction::Lint,
                    args.target,
                    name_views(args.exclude@),
                    name_views(args.only@),
                    name_views(members.crates@),
                    name_views(members.examples@),
                    b,
                ),
            }),
            CheckCommand::All => (match answer {
                Option::None => r.dispatch == Dispatch::NeedConfirmation(Prompt::AllChecks),
                Option::Some(b) => r.dispatch matches Dispatch::Run(steps) && views_of(steps@)
                    == all_plan(
                    args.target,
                    name_views(args.exclude@),
                    name_views(args.only@),
                    name_views(members.crates@),
                    name_views(members.examples@),
                    b,
                ),
            }),
        }),
{
    let warning: Option<FilterWarning> = if answer.is_none() {
        match args.command {
            CheckCommand::Compile => {
                if args.target == Target::Workspace && args.only.len() > 0 {
                    Option::Some(FilterWarning::OnlyIgnored)
                } else {
                    Option::None
                }
            },
            _ => {
                if args.target == Target::Workspace && (args.exclude.len() > 0 || args.only.len()
                    > 0) {
                    Option::Some(FilterWarning::ExcludeAndOnlyIgnored)
                } else {
                    Option::None
                }
            },
        }
    } else {
        Option::None
    };
    let dispatch: Dispatch = match args.command {
        CheckCommand::Audit => run_audit(answer),
        CheckCommand::Compile => Dispatch::Run(
            run_compile(&args.target, &args.exclude, &args.only, answer, members),
        ),
        CheckCommand::Format => run_format(&args.target, &args.exclude, &args.only, answer, members),
        CheckCommand::Lint => run_lint(&args.target, &args.exclude, &args.only, answer, members),
        CheckCommand::Typos => run_typos(answer),
        CheckCommand::All => {
            match answer {
                Option::None => Dispatch::NeedConfirmation(Prompt::AllChecks),
                Option::Some(b) => {
                    let mut steps = audit_invocations(b);
                    let mut format_steps = if b {
                        action_invocations(
                            CheckAction::Format,
                            &args.target,
                            &args.exclude,
                            &args.only,
                            members,
                        )
                    } else {
                        Vec::new()
                    };
                    let mut lint_steps = if b {
                        action_invocations(
                            CheckAction::Lint,
                            &args.target,
                            &args.exclude,
                            &args.only,
                            members,
                        )
                    } else {
                        Vec::new()
                    };
                    let mut typos_steps = typos_invocations(b);
                    let ghost v0 = views_of(steps@);
                    let ghost v1 = views_of(format_steps@);
                    let ghost v2 = views_of(lint_steps@);
                    let ghost v3 = views_of(typos_steps@);
                    steps.append(&mut format_steps);
                    steps.append(&mut lint_steps);
                    steps.append(&mut typos_steps);
                    proof {
                        if !b {
                            assert(v1 =~= Seq::<InvocationView>::empty());
                            assert(v2 =~= Seq::<InvocationView>::empty());
                        }
                        assert(views_of(steps@) =~= v0 + v1 + v2 + v3);
                    }
                    Dispatch::Run(steps)
                },
            }
        },
    };
    DispatchOutcome { warning, dispatch }
}


/// Every invocation of a package-level plan addresses one package.
proof fn lemma_package_plan_scopes(
    action: CheckAction,
    members: Seq<Seq<char>>,
    exclude: Seq<Seq<char>>,
    only: Seq<Seq<char>>,
)
    ensures
        forall|i: int|
            0 <= i < package_plan(action, members, exclude, only).len() ==> (#[trigger] package_plan(
                action,
                members,
                exclude,
                only,
            )[i]).scope != ScopeView::Workspace,
    decreases members.len(),
{
    if members.len() > 0 {
        lemma_package_plan_scopes(action, members.drop_last(), exclude, only);
    }
}

/// Law: the composite target's plan is exactly the crates' plan followed by
/// the examples' plan — in that order — and the workspace-wide invocation
/// never appears in it.
pub proof fn lemma_all_packages_plan(
    action: CheckAction,
    exclude: Seq<Seq<char>>,
    only: Seq<Seq<char>>,
    crates: Seq<Seq<char>>,
    examples: Seq<Seq<char>>,
)
    ensures
        target_plan(action, Target::AllPackages, exclude, only, crates, examples) == target_plan(
            action,
            Target::Crates,
            exclude,
            only,
            crates,
            examples,
        ) + target_plan(action, Target::Examples, exclude, only, crates, examples),
        forall|i: int|
            0 <= i < target_plan(action, Target::AllPackages, exclude, only, crates, examples).len()
                ==> (#[trigger] target_plan(
                action,
                Target::AllPackages,
                exclude,
                only,
                crates,
                examples,
            )[i]).scope != ScopeView::Workspace,
{
    lemma_package_plan_scopes(action, crates, exclude, only);
    lemma_package_plan_scopes(action, examples, exclude, only);
}

} // verus!
