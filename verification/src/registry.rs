//! The base vocabularies and the composition entry points: what targets,
//! commands and subcommands exist out of the box, and how a host project
//! declares, selects and extends them.

use vstd::prelude::*;

use crate::filter::name_views;
use crate::vocabulary::collides_at;
use crate::vocabulary::compose_ok;
use crate::vocabulary::default_count;
use crate::vocabulary::distinct_names;
use crate::vocabulary::has_collision;
use crate::vocabulary::lemma_default_count_none;
use crate::vocabulary::lemma_default_count_one;
use crate::vocabulary::variant_names;
use crate::vocabulary::CompositionError;
use crate::vocabulary::ExtendedVocabulary;
use crate::vocabulary::VariantDecl;
use crate::vocabulary::Vocabulary;

verus! {

/// Builds one variant declaration.
pub fn variant(name: &str, doc: &str, is_default: bool) -> (r: VariantDecl)
    ensures
        r.name@ == name@,
        r.doc@ == doc@,
        r.is_default == is_default,
{
    VariantDecl { name: String::from_str(name), doc: String::from_str(doc), is_default }
}

/// The names of the base target vocabulary, in declared order.
pub open spec fn base_target_names() -> Seq<Seq<char>> {
    seq!["AllPackages"@, "Crates"@, "Examples"@, "Workspace"@]
}

/// The base target vocabulary: every package, the crates, the examples, and
/// the whole workspace — the latter being the default.
pub fn base_targets() -> (r: Vocabulary)
    ensures
        r.wf(),
        variant_names(r.variants@) == base_target_names(),
        r.variants@.len() == 4,
        forall|i: int| 0 <= i < 4 ==> ((#[trigger] r.variants@[i].is_default) <==> i == 3),
{
    let mut variants: Vec<VariantDecl> = Vec::new();
    variants.push(
        variant("AllPackages", "Targets all crates and examples using cargo --package.", false),
    );
    variants.push(variant("Crates", "Targets all binary and library crates.", false));
    variants.push(variant("Examples", "Targets all example crates.", false));
    variants.push(variant("Workspace", "Targets the whole workspace using cargo --workspace.", true));
    proof {
        assert(variant_names(variants@) =~= base_target_names());
        reveal_strlit("AllPackages");
        reveal_strlit("Crates");
        reveal_strlit("Examples");
        reveal_strlit("Workspace");
        assert forall|i: int, j: int|
            0 <= i < j < variants@.len() implies variants@[i].name@ != variants@[j].name@ by {
            assert(variants@[0].name@.len() == 11);
            assert(variants@[1].name@.len() == 6);
            assert(variants@[2].name@.len() == 8);
            assert(variants@[3].name@.len() == 9);
        }
        lemma_default_count_one(variants@, 3);
    }
    Vocabulary { variants }
}

/// Declares a target vocabulary: the base targets followed by the
/// host-declared extra variants.  Fails exactly when an extra name collides
/// with a base target name or an earlier extra name, or when more than one
/// extra variant claims the default.
pub fn declare_targets(extra: &Vec<VariantDecl>) -> (r: Result<Vocabulary, CompositionError>)
    ensures
        r is Ok <==> compose_ok(base_target_names(), extra@),
        r matches Ok(v) ==> v.wf() && v.variants@.len() == 4 + extra@.len() && variant_names(
            v.variants@,
        ) == base_target_names() + variant_names(extra@) && (forall|i: int|
            0 <= i < 4 ==> ((#[trigger] v.variants@[i].is_default) <==> i == 3 && default_count(
                extra@,
            ) == 0)) && (forall|j: int|
            0 <= j < extra@.len() ==> v.variants@[4 + j] == extra@[j]),
        r matches Err(e) ==> (match e {
            CompositionError::NameCollision { name } => exists|i: int|
                0 <= i < extra@.len() && #[trigger] collides_at(base_target_names(), extra@, i)
                    && name@ == extra@[i].name@,
            CompositionError::MultipleDefaults => !has_collision(base_target_names(), extra@)
                && default_count(extra@) >= 2,
            _ => false,
        }),
{
    match extend_targets(extra) {
        Result::Ok(e) => Result::Ok(e.vocabulary),
        Result::Err(err) => Result::Err(err),
    }
}

/// Extends the target vocabulary and keeps the downcast information: the
/// first four values of the result are the base targets, and host-only
/// values fail to downcast.
pub fn extend_targets(extra: &Vec<VariantDecl>) -> (r: Result<
    ExtendedVocabulary,
    CompositionError,
>)
    ensures
        r is Ok <==> compose_ok(base_target_names(), extra@),
        r matches Ok(e) ==> e.wf() && e.base_count == 4 && e.vocabulary.variants@.len() == 4
            + extra@.len() && variant_names(e.vocabulary.variants@) == base_target_names()
            + variant_names(extra@) && (forall|i: int|
            0 <= i < 4 ==> ((#[trigger] e.vocabulary.variants@[i].is_default) <==> i == 3
                && default_count(extra@) == 0)) && (forall|j: int|
            0 <= j < extra@.len() ==> e.vocabulary.variants@[4 + j] == extra@[j]),
        r matches Err(e) ==> (match e {
            CompositionError::NameCollision { name } => exists|i: int|
                0 <= i < extra@.len() && #[trigger] collides_at(base_target_names(), extra@, i)
                    && name@ == extra@[i].name@,
            CompositionError::MultipleDefaults => !has_collision(base_target_names(), extra@)
                && default_count(extra@) >= 2,
            _ => false,
        }),
{
    let base = base_targets();
    let r = base.compose(extra);
    proof {
        lemma_compose_from_base(base.variants@, extra@, base_target_names());
    }
    match r {
        Result::Ok(e) => {
            proof {
                assert(variant_names(e.vocabulary.variants@) =~= base_target_names()
                    + variant_names(extra@));
            }
            Result::Ok(e)
        },
        Result::Err(err) => Result::Err(err),
    }
}

/// Transfers the merged-vocabulary facts from a concrete base vocabulary to
/// its name list.
proof fn lemma_compose_from_base(
    base: Seq<VariantDecl>,
    host: Seq<VariantDecl>,
    base_names: Seq<Seq<char>>,
)
    requires
        variant_names(base) == base_names,
    ensures
        compose_ok(variant_names(base), host) == compose_ok(base_names, host),
        forall|i: int|
            0 <= i < base.len() ==> #[trigger] crate::vocabulary::merged_variants(base, host)[i].name@
                == base[i].name@ && crate::vocabulary::merged_variants(base, host)[i].doc@
                == base[i].doc@ && (crate::vocabulary::merged_variants(base, host)[i].is_default
                <==> base[i].is_default && default_count(host) == 0),
        forall|j: int|
            0 <= j < host.len() ==> #[trigger] crate::vocabulary::merged_variants(base, host)[base.len()
                + j] == host[j],
        variant_names(crate::vocabulary::merged_variants(base, host)) =~= base_names
            + variant_names(host),
{
    let m = crate::vocabulary::merged_variants(base, host);
    assert forall|i: int| 0 <= i < base.len() implies #[trigger] m[i].name@ == base[i].name@
        && m[i].doc@ == base[i].doc@ && (m[i].is_default <==> base[i].is_default && default_count(
        host,
    ) == 0) by {
        if default_count(host) > 0 {
            assert(m[i] == crate::vocabulary::clear_default(base[i]));
        } else {
            assert(m[i] == base[i]);
        }
    }
    assert forall|k: int| 0 <= k < m.len() implies #[trigger] variant_names(m)[k] == (base_names
        + variant_names(host))[k] by {
        if k < base.len() {
            assert(variant_names(base)[k] == base[k].name@);
        }
    }
}


/// The names of the base command registry, in declared order.
pub open spec fn command_names() -> Seq<Seq<char>> {
    seq![
        "Build"@,
        "Bump"@,
        "Fix"@,
        "Check"@,
        "Compile"@,
        "Coverage"@,
        "Doc"@,
        "Dependencies"@,
        "Publish"@,
        "Test"@,
        "Validate"@,
        "Vulnerabilities"@,
    ]
}

/// The documentation of each base command.
pub open spec fn command_doc(name: Seq<char>) -> Seq<char> {
    if name == "Build"@ {
        "Build the code."@
    } else if name == "Bump"@ {
        "Bump the version of all crates to be published."@
    } else if name == "Fix"@ {
        "Fix issues found with the 'check' command."@
    } else if name == "Check"@ {
        "Run checks like formatting, linting etc... This command only reports issues, use the 'fix' command to auto-fix issues."@
    } else if name == "Compile"@ {
        "Compile check the code (does not write binaries to disk)."@
    } else if name == "Coverage"@ {
        "Install and run coverage tools."@
    } else if name == "Doc"@ {
        "Build documentation."@
    } else if name == "Dependencies"@ {
        "Run the specified dependencies check locally."@
    } else if name == "Publish"@ {
        "Publish a crate to crates.io."@
    } else if name == "Test"@ {
        "Runs tests."@
    } else if name == "Validate"@ {
        "Validate the code base by running all the relevant checks and tests. Use this command before creating a new pull-request."@
    } else if name == "Vulnerabilities"@ {
        "Run the specified vulnerability check locally. These commands must be called with 'cargo +nightly'."@
    } else {
        Seq::empty()
    }
}

/// The base command registry: every command a host can select, none of them
/// a default.
pub fn base_commands() -> (r: Vocabulary)
    ensures
        r.wf(),
        variant_names(r.variants@) == command_names(),
        r.variants@.len() == 12,
        forall|i: int| 0 <= i < 12 ==> !(#[trigger] r.variants@[i]).is_default,
        forall|i: int|
            0 <= i < 12 ==> (#[trigger] r.variants@[i]).doc@ == command_doc(r.variants@[i].name@),
{
    let mut variants: Vec<VariantDecl> = Vec::new();
    variants.push(variant("Build", "Build the code.", false));
    variants.push(variant("Bump", "Bump the version of all crates to be published.", false));
    variants.push(variant("Fix", "Fix issues found with the 'check' command.", false));
    variants.push(
        variant(
            "Check",
            "Run checks like formatting, linting etc... This command only reports issues, use the 'fix' command to auto-fix issues.",
            false,
        ),
    );
    variants.push(
        variant("Compile", "Compile check the code (does not write binaries to disk).", false),
    );
    variants.push(variant("Coverage", "Install and run coverage tools.", false));
    variants.push(variant("Doc", "Build documentation.", false));
    variants.push(variant("Dependencies", "Run the specified dependencies check locally.", false));
    variants.push(variant("Publish", "Publish a crate to crates.io.", false));
    variants.push(variant("Test", "Runs tests.", false));
    variants.push(
        variant(
            "Validate",
            "Validate the code base by running all the relevant checks and tests. Use this command before creating a new pull-request.",
            false,
        ),
    );
    variants.push(
        variant(
            "Vulnerabilities",
            "Run the specified vulnerability check locally. These commands must be called with 'cargo +nightly'.",
            false,
        ),
    );
    proof {
        assert(variant_names(variants@) =~= command_names());
        reveal_strlit("Build");
        reveal_strlit("Bump");
        reveal_strlit("Fix");
        reveal_strlit("Check");
        reveal_strlit("Compile");
        reveal_strlit("Coverage");
        reveal_strlit("Doc");
        reveal_strlit("Dependencies");
        reveal_strlit("Publish");
        reveal_strlit("Test");
        reveal_strlit("Validate");
        reveal_strlit("Vulnerabilities");
        assert forall|i: int, j: int|
            0 <= i < j < variants@.len() implies variants@[i].name@ != variants@[j].name@ by {
            assert(variants@[0].name@ == "Build"@ && "Build"@.len() == 5 && "Build"@[0] == 'B');
            assert(variants@[1].name@ == "Bump"@ && "Bump"@.len() == 4 && "Bump"@[0] == 'B');
            assert(variants@[2].name@ == "Fix"@ && "Fix"@.len() == 3 && "Fix"@[0] == 'F');
            assert(variants@[3].name@ == "Check"@ && "Check"@.len() == 5 && "Check"@[0] == 'C');
            assert(variants@[4].name@ == "Compile"@ && "Compile"@.len() == 7 && "Compile"@[0]
                == 'C');
            assert(variants@[5].name@ == "Coverage"@ && "Coverage"@.len() == 8 && "Coverage"@[0]
                == 'C');
            assert(variants@[6].name@ == "Doc"@ && "Doc"@.len() == 3 && "Doc"@[0] == 'D');
            assert(variants@[7].name@ == "Dependencies"@ && "Dependencies"@.len() == 12
                && "Dependencies"@[0] == 'D');
            assert(variants@[8].name@ == "Publish"@ && "Publish"@.len() == 7 && "Publish"@[0]
                == 'P');
            assert(variants@[9].name@ == "Test"@ && "Test"@.len() == 4 && "Test"@[0] == 'T');
            assert(variants@[10].name@ == "Validate"@ && "Validate"@.len() == 8 && "Validate"@[0]
                == 'V');
            assert(variants@[11].name@ == "Vulnerabilities"@ && "Vulnerabilities"@.len() == 15
                && "Vulnerabilities"@[0] == 'V');
        }
        lemma_default_count_none(variants@);
    }
    Vocabulary { variants }
}

/// The names of the base commands, for error messages.
pub fn command_name_strings() -> (r: Vec<String>)
    ensures
        name_views(r@) == command_names(),
{
    let mut out: Vec<String> = Vec::new();
    out.push(String::from_str("Build"));
    out.push(String::from_str("Bump"));
    out.push(String::from_str("Fix"));
    out.push(String::from_str("Check"));
    out.push(String::from_str("Compile"));
    out.push(String::from_str("Coverage"));
    out.push(String::from_str("Doc"));
    out.push(String::from_str("Dependencies"));
    out.push(String::from_str("Publish"));
    out.push(String::from_str("Test"));
    out.push(String::from_str("Validate"));
    out.push(String::from_str("Vulnerabilities"));
    proof {
        assert(name_views(out@) =~= command_names());
    }
    out
}

/// Finds a variant by name.
fn find_variant(vs: &Vec<VariantDecl>, name: &String) -> (r: Option<usize>)
    ensures
        r matches Some(j) ==> j < vs@.len() && vs@[j as int].name@ == name@,
        r is None ==> !variant_names(vs@).contains(name@),
{
    let mut i: usize = 0;
    while i < vs.len()
        invariant
            i <= vs@.len(),
            forall|j: int| 0 <= j < i ==> vs@[j].name@ != name@,
        decreases vs@.len() - i,
    {
        if vs[i].name.eq(name) {
            return Option::Some(i);
        }
        i += 1;
    }
    proof {
        assert forall|j: int| 0 <= j < variant_names(vs@).len() implies variant_names(vs@)[j]
            != name@ by {
            assert(variant_names(vs@)[j] == vs@[j].name@);
        }
    }
    Option::None
}

/// Whether every selected name is a base command name.
pub open spec fn known_commands(selected: Seq<Seq<char>>) -> bool {
    forall|i: int| 0 <= i < selected.len() ==> command_names().contains(#[trigger] selected[i])
}

/// Whether a name list is free of repetition.
pub open spec fn distinct_seqs(names: Seq<Seq<char>>) -> bool {
    forall|i: int, j: int| 0 <= i < j < names.len() ==> names[i] != names[j]
}

/// When selecting commands succeeds: every selected name is known, none is
/// selected twice, and the extra variants compose against the selection.
pub open spec fn commands_ok(selected: Seq<Seq<char>>, extra: Seq<VariantDecl>) -> bool {
    known_commands(selected) && distinct_seqs(selected) && compose_ok(selected, extra)
}

/// Builds a command vocabulary from a host's selection.
///
/// The host selects base commands by name, in its own order, and may append
/// host-only command variants.  An unrecognized name is rejected with an
/// error that enumerates every valid name; a repeated or colliding name and
/// a second default are rejected as in every composition.
pub fn commands(selected: &Vec<String>, extra: &Vec<VariantDecl>) -> (r: Result<
    Vocabulary,
    CompositionError,
>)
    ensures
        r is Ok <==> commands_ok(name_views(selected@), extra@),
        r matches Ok(v) ==> v.wf() && v.variants@.len() == selected@.len() + extra@.len() && (
        forall|i: int|
            0 <= i < selected@.len() ==> (#[trigger] v.variants@[i]).name@ == selected@[i]@
                && v.variants@[i].doc@ == command_doc(selected@[i]@)
                && !v.variants@[i].is_default) && (forall|j: int|
            0 <= j < extra@.len() ==> v.variants@[selected@.len() + j] == extra@[j]),
        r matches Err(e) ==> (match e {
            CompositionError::UnknownCommand { name, valid } => name_views(valid@)
                == command_names() && (exists|i: int|
                0 <= i < selected@.len() && !command_names().contains(#[trigger] selected@[i]@)
                    && name@ == selected@[i]@),
            CompositionError::NameCollision { name } => (exists|i: int, j: int|
                0 <= i < j < selected@.len() && selected@[i]@ == selected@[j]@ && name@
                    == selected@[j]@) || (known_commands(name_views(selected@)) && distinct_seqs(
                name_views(selected@),
            ) && exists|k: int|
                0 <= k < extra@.len() && #[trigger] collides_at(name_views(selected@), extra@, k)
                    && name@ == extra@[k].name@),
            CompositionError::MultipleDefaults => known_commands(name_views(selected@))
                && distinct_seqs(name_views(selected@)) && !has_collision(
                name_views(selected@),
                extra@,
            ) && default_count(extra@) >= 2,
        }),
{
    let registry = base_commands();
    let mut sel: Vec<VariantDecl> = Vec::new();
    let mut i: usize = 0;
    while i < selected.len()
        invariant
            i <= selected@.len(),
            sel@.len() == i,
            registry.variants@.len() == 12,
            variant_names(registry.variants@) == command_names(),
            forall|k: int|
                0 <= k < 12 ==> (#[trigger] registry.variants@[k]).doc@ == command_doc(
                    registry.variants@[k].name@,
                ),
            forall|k: int|
                0 <= k < i ==> (#[trigger] sel@[k]).name@ == selected@[k]@ && sel@[k].doc@
                    == command_doc(selected@[k]@) && !sel@[k].is_default,
            forall|k: int| 0 <= k < i ==> command_names().contains(#[trigger] selected@[k]@),
            forall|k: int, l: int| 0 <= k < l < i ==> selected@[k]@ != selected@[l]@,
        decreases selected@.len() - i,
    {
        let name = &selected[i];
        proof {
            assert(name_views(selected@)[i as int] == selected@[i as int]@);
        }
        if crate::vocabulary::variants_contain(&sel, i, name) {
            proof {
                let k = choose|k: int| 0 <= k < i && sel@[k].name@ == name@;
                assert(name_views(selected@)[k] == selected@[k]@);
                assert(selected@[k]@ == selected@[i as int]@);
                assert(!distinct_seqs(name_views(selected@)));
            }
            return Result::Err(CompositionError::NameCollision { name: name.clone() });
        }
        proof {
            assert forall|k: int| 0 <= k < i implies selected@[k]@ != selected@[i as int]@ by {
                assert(sel@[k].name@ == selected@[k]@);
            }
        }
        match find_variant(&registry.variants, name) {
            Option::Some(j) => {
                proof {
                    assert(variant_names(registry.variants@)[j as int] == registry.variants@[j as int].name@);
                    assert(command_names().contains(selected@[i as int]@));
                }
                sel.push(
                    VariantDecl {
                        name: name.clone(),
                        doc: registry.variants[j].doc.clone(),
                        is_default: false,
                    },
                );
            },
            Option::None => {
                proof {
                    assert(!command_names().contains(name_views(selected@)[i as int]));
                    assert(!known_commands(name_views(selected@)));
                }
                return Result::Err(
                    CompositionError::UnknownCommand {
                        name: name.clone(),
                        valid: command_name_strings(),
                    },
                );
            },
        }
        i += 1;
    }
    proof {
        assert(variant_names(sel@) =~= name_views(selected@));
        assert forall|k: int|
            0 <= k < selected@.len() implies #[trigger] name_views(selected@)[k]
            == selected@[k]@ by {}
        assert(known_commands(name_views(selected@)));
        assert(distinct_seqs(name_views(selected@)));
        lemma_default_count_none(sel@);
    }
    let base = Vocabulary { variants: sel };
    let r = base.compose(extra);
    proof {
        lemma_compose_from_base(base.variants@, extra@, name_views(selected@));
    }
    match r {
        Result::Ok(e) => {
            proof {
                let m = crate::vocabulary::merged_variants(base.variants@, extra@);
                assert forall|k: int|
                    0 <= k < selected@.len() implies (#[trigger] e.vocabulary.variants@[k]).name@
                    == selected@[k]@ && e.vocabulary.variants@[k].doc@ == command_doc(
                    selected@[k]@,
                ) && !e.vocabulary.variants@[k].is_default by {
                    assert(m[k].name@ == base.variants@[k].name@);
                }
            }
            Result::Ok(e.vocabulary)
        },
        Result::Err(err) => Result::Err(err),
    }
}

/// The names of the base subcommand vocabularies, in declared order.
pub open spec fn subcommand_kind_names() -> Seq<Seq<char>> {
    seq![
        "BumpSubCommand"@,
        "CheckSubCommand"@,
        "CoverageSubCommand"@,
        "DependenciesSubCommand"@,
        "DocSubCommand"@,
        "FixSubCommand"@,
        "TestSubCommand"@,
        "VulnerabilitiesSubCommand"@,
    ]
}

/// The variant names of one base subcommand vocabulary.
pub open spec fn subcommand_variant_names(kind: Seq<char>) -> Seq<Seq<char>> {
    if kind == "BumpSubCommand"@ {
        seq!["Major"@, "Minor"@, "Patch"@]
    } else if kind == "CheckSubCommand"@ {
        seq!["All"@, "Audit"@, "Format"@, "Lint"@, "Typos"@]
    } else if kind == "CoverageSubCommand"@ {
        seq!["Install"@, "Generate"@]
    } else if kind == "DependenciesSubCommand"@ {
        seq!["All"@, "Deny"@, "Unused"@]
    } else if kind == "DocSubCommand"@ {
        seq!["Build"@, "Tests"@]
    } else if kind == "FixSubCommand"@ {
        seq!["All"@, "Audit"@, "Format"@, "Lint"@, "Typos"@]
    } else if kind == "TestSubCommand"@ {
        seq!["All"@, "Unit"@, "Integration"@]
    } else if kind == "VulnerabilitiesSubCommand"@ {
        seq![
            "All"@,
            "AddressSanitizer"@,
            "ControlFlowIntegrity"@,
            "HWAddressSanitizer"@,
            "KernelControlFlowIntegrity"@,
            "LeakSanitizer"@,
            "MemorySanitizer"@,
            "MemTagSanitizer"@,
            "NightlyChecks"@,
            "SafeStack"@,
            "ShadowCallStack"@,
            "ThreadSanitizer"@,
        ]
    } else {
        Seq::empty()
    }
}

/// Whether a base subcommand vocabulary designates a default variant.  Every
/// vocabulary that has one puts it first.
pub open spec fn subcommand_has_default(kind: Seq<char>) -> bool {
    kind == "CheckSubCommand"@ || kind == "DependenciesSubCommand"@ || kind == "DocSubCommand"@
        || kind == "FixSubCommand"@ || kind == "TestSubCommand"@
        || kind == "VulnerabilitiesSubCommand"@
}


/// Shared literal facts about the subcommand vocabulary names.
proof fn lemma_kind_literals()
    ensures
        "BumpSubCommand"@.len() == 14,
        "CheckSubCommand"@.len() == 15,
        "CoverageSubCommand"@.len() == 18,
        "DependenciesSubCommand"@.len() == 22,
        "DocSubCommand"@.len() == 13,
        "FixSubCommand"@.len() == 13,
        "TestSubCommand"@.len() == 14,
        "VulnerabilitiesSubCommand"@.len() == 25,
        "DocSubCommand"@[0] == 'D',
        "FixSubCommand"@[0] == 'F',
        "BumpSubCommand"@[0] == 'B',
        "TestSubCommand"@[0] == 'T',
{
    reveal_strlit("BumpSubCommand");
    reveal_strlit("CheckSubCommand");
    reveal_strlit("CoverageSubCommand");
    reveal_strlit("DependenciesSubCommand");
    reveal_strlit("DocSubCommand");
    reveal_strlit("FixSubCommand");
    reveal_strlit("TestSubCommand");
    reveal_strlit("VulnerabilitiesSubCommand");
}

/// The names of the base subcommand vocabularies, for error messages.
pub fn subcommand_kind_strings() -> (r: Vec<String>)
    ensures
        name_views(r@) == subcommand_kind_names(),
{
    let mut out: Vec<String> = Vec::new();
    out.push(String::from_str("BumpSubCommand"));
    out.push(String::from_str("CheckSubCommand"));
    out.push(String::from_str("CoverageSubCommand"));
    out.push(String::from_str("DependenciesSubCommand"));
    out.push(String::from_str("DocSubCommand"));
    out.push(String::from_str("FixSubCommand"));
    out.push(String::from_str("TestSubCommand"));
    out.push(String::from_str("VulnerabilitiesSubCommand"));
    proof {
        assert(name_views(out@) =~= subcommand_kind_names());
    }
    out
}

/// Looks one base subcommand vocabulary up by name.
pub fn base_subcommands(kind: &String) -> (r: Option<Vocabulary>)
    ensures
        r is Some <==> subcommand_kind_names().contains(kind@),
        r matches Some(v) ==> v.wf() && variant_names(v.variants@) == subcommand_variant_names(
            kind@,
        ) && (forall|i: int|
            0 <= i < v.variants@.len() ==> ((#[trigger] v.variants@[i]).is_default <==> (
            subcommand_has_default(kind@) && i == 0))),
{
    if kind.eq(&String::from_str("BumpSubCommand")) {
        let mut variants: Vec<VariantDecl> = Vec::new();
        variants.push(variant("Major", "Bump the major version.", false));
        variants.push(variant("Minor", "Bump the minor version.", false));
        variants.push(variant("Patch", "Bump the patch version.", false));
        proof {
            lemma_kind_literals();
            assert(subcommand_kind_names()[0] == "BumpSubCommand"@);
            assert(variant_names(variants@) =~= subcommand_variant_names(kind@));
            reveal_strlit("Major");
            reveal_strlit("Minor");
            reveal_strlit("Patch");
            assert forall|i: int, j: int|
                0 <= i < j < variants@.len() implies variants@[i].name@ != variants@[j].name@ by {
                assert(variants@[0].name@ == "Major"@ && "Major"@.len() == 5 && "Major"@[0] == 'M');
                assert(variants@[1].name@ == "Minor"@ && "Minor"@.len() == 5 && "Minor"@[0] == 'M');
                assert(variants@[2].name@ == "Patch"@ && "Patch"@.len() == 5 && "Patch"@[0] == 'P');
                assert("Major"@[1] == 'a' && "Minor"@[1] == 'i');
            }
            lemma_default_count_none(variants@);
        }
        Option::Some(Vocabulary { variants })
    } else if kind.eq(&String::from_str("CheckSubCommand")) {
        let mut variants: Vec<VariantDecl> = Vec::new();
        variants.push(variant("All", "Run all the checks.", true));
        variants.push(variant("Audit", "Run audit command.", false));
        variants.push(variant("Format", "Run format command.", false));
        variants.push(variant("Lint", "Run lint command.", false));
        variants.push(variant("Typos", "Report typos in source code.", false));
        proof {
            lemma_kind_literals();
            assert(subcommand_kind_names()[1] == "CheckSubCommand"@);
            assert(variant_names(variants@) =~= subcommand_variant_names(kind@));
            reveal_strlit("All");
            reveal_strlit("Audit");
            reveal_strlit("Format");
            reveal_strlit("Lint");
            reveal_strlit("Typos");
            assert forall|i: int, j: int|
                0 <= i < j < variants@.len() implies variants@[i].name@ != variants@[j].name@ by {
                assert(variants@[0].name@ == "All"@ && "All"@.len() == 3 && "All"@[0] == 'A');
                assert(variants@[1].name@ == "Audit"@ && "Audit"@.len() == 5 && "Audit"@[0] == 'A');
                assert(variants@[2].name@ == "Format"@ && "Format"@.len() == 6 && "Format"@[0] == 'F');
                assert(variants@[3].name@ == "Lint"@ && "Lint"@.len() == 4 && "Lint"@[0] == 'L');
                assert(variants@[4].name@ == "Typos"@ && "Typos"@.len() == 5 && "Typos"@[0] == 'T');
            }
            lemma_default_count_one(variants@, 0);
        }
        Option::Some(Vocabulary { variants })
    } else if kind.eq(&String::from_str("CoverageSubCommand")) {
        let mut variants: Vec<VariantDecl> = Vec::new();
        variants.push(variant("Install", "Install grcov and its dependencies.", false));
        variants.push(variant("Generate", "Generate lcov.info file.", false));
        proof {
            lemma_kind_literals();
            assert(subcommand_kind_names()[2] == "CoverageSubCommand"@);
            assert(variant_names(variants@) =~= subcommand_variant_names(kind@));
            reveal_strlit("Install");
            reveal_strlit("Generate");
            assert forall|i: int, j: int|
                0 <= i < j < variants@.len() implies variants@[i].name@ != variants@[j].name@ by {
                assert(variants@[0].name@ == "Install"@ && "Install"@.len() == 7 && "Install"@[0] == 'I');
                assert(variants@[1].name@ == "Generate"@ && "Generate"@.len() == 8 && "Generate"@[0] == 'G');
            }
            lemma_default_count_none(variants@);
        }
        Option::Some(Vocabulary { variants })
    } else if kind.eq(&String::from_str("DependenciesSubCommand")) {
        let mut variants: Vec<VariantDecl> = Vec::new();
        variants.push(variant("All", "Run all dependency checks.", true));
        variants.push(variant("Deny", "Run cargo-deny to ensure all dependencies meet requirements.", false));
        variants.push(variant("Unused", "Run cargo-udeps to find unused dependencies.", false));
        proof {
            lemma_kind_literals();
            assert(subcommand_kind_names()[3] == "DependenciesSubCommand"@);
            assert(variant_names(variants@) =~= subcommand_variant_names(kind@));
            reveal_strlit("All");
            reveal_strlit("Deny");
            reveal_strlit("Unused");
            assert forall|i: int, j: int|
                0 <= i < j < variants@.len() implies variants@[i].name@ != variants@[j].name@ by {
                assert(variants@[0].name@ == "All"@ && "All"@.len() == 3 && "All"@[0] == 'A');
                assert(variants@[1].name@ == "Deny"@ && "Deny"@.len() == 4 && "Deny"@[0] == 'D');
                assert(variants@[2].name@ == "Unused"@ && "Unused"@.len() == 6 && "Unused"@[0] == 'U');
            }
            lemma_default_count_one(variants@, 0);
        }
        Option::Some(Vocabulary { variants })
    } else if kind.eq(&String::from_str("DocSubCommand")) {
        let mut variants: Vec<VariantDecl> = Vec::new();
        variants.push(variant("Build", "Build documentation.", true));
        variants.push(variant("Tests", "Run documentation tests.", false));
        proof {
            lemma_kind_literals();
            assert(subcommand_kind_names()[4] == "DocSubCommand"@);
            assert(variant_names(variants@) =~= subcommand_variant_names(kind@));
            reveal_strlit("Build");
            reveal_strlit("Tests");
            assert forall|i: int, j: int|
                0 <= i < j < variants@.len() implies variants@[i].name@ != variants@[j].name@ by {
                assert(variants@[0].name@ == "Build"@ && "Build"@.len() == 5 && "Build"@[0] == 'B');
                assert(variants@[1].name@ == "Tests"@ && "Tests"@.len() == 5 && "Tests"@[0] == 'T');
            }
            lemma_default_count_one(variants@, 0);
        }
        Option::Some(Vocabulary { variants })
    } else if kind.eq(&String::from_str("FixSubCommand")) {
        let mut variants: Vec<VariantDecl> = Vec::new();
        variants.push(variant("All", "Run all the checks.", true));
        variants.push(variant("Audit", "Run audit command.", false));
        variants.push(variant("Format", "Run format command and fix formatting.", false));
        variants.push(variant("Lint", "Run lint command and fix issues.", false));
        variants.push(variant("Typos", "Find typos in source code and fix them.", false));
        proof {
            lemma_kind_literals();
            assert(subcommand_kind_names()[5] == "FixSubCommand"@);
            assert(variant_names(variants@) =~= subcommand_variant_names(kind@));
            reveal_strlit("All");
            reveal_strlit("Audit");
            reveal_strlit("Format");
            reveal_strlit("Lint");
            reveal_strlit("Typos");
            assert forall|i: int, j: int|
                0 <= i < j < variants@.len() implies variants@[i].name@ != variants@[j].name@ by {
                assert(variants@[0].name@ == "All"@ && "All"@.len() == 3 && "All"@[0] == 'A');
                assert(variants@[1].name@ == "Audit"@ && "Audit"@.len() == 5 && "Audit"@[0] == 'A');
                assert(variants@[2].name@ == "Format"@ && "Format"@.len() == 6 && "Format"@[0] == 'F');
                assert(variants@[3].name@ == "Lint"@ && "Lint"@.len() == 4 && "Lint"@[0] == 'L');
                assert(variants@[4].name@ == "Typos"@ && "Typos"@.len() == 5 && "Typos"@[0] == 'T');
            }
            lemma_default_count_one(variants@, 0);
        }
        Option::Some(Vocabulary { variants })
    } else if kind.eq(&String::from_str("TestSubCommand")) {
        let mut variants: Vec<VariantDecl> = Vec::new();
        variants.push(variant("All", "Run all the checks.", true));
        variants.push(variant("Unit", "Run unit tests.", false));
        variants.push(variant("Integration", "Run integration tests.", false));
        proof {
            lemma_kind_literals();
            assert(subcommand_kind_names()[6] == "TestSubCommand"@);
            assert(variant_names(variants@) =~= subcommand_variant_names(kind@));
            reveal_strlit("All");
            reveal_strlit("Unit");
            reveal_strlit("Integration");
            assert forall|i: int, j: int|
                0 <= i < j < variants@.len() implies variants@[i].name@ != variants@[j].name@ by {
                assert(variants@[0].name@ == "All"@ && "All"@.len() == 3 && "All"@[0] == 'A');
                assert(variants@[1].name@ == "Unit"@ && "Unit"@.len() == 4 && "Unit"@[0] == 'U');
                assert(variants@[2].name@ == "Integration"@ && "Integration"@.len() == 11 && "Integration"@[0] == 'I');
            }
            lemma_default_count_one(variants@, 0);
        }
        Option::Some(Vocabulary { variants })
    } else if kind.eq(&String::from_str("VulnerabilitiesSubCommand")) {
        let mut variants: Vec<VariantDecl> = Vec::new();
        variants.push(variant("All", "Run all most useful vulnerability checks.", true));
        variants.push(variant("AddressSanitizer", "Run Address sanitizer (memory error detector).", false));
        variants.push(variant("ControlFlowIntegrity", "Run LLVM Control Flow Integrity (forward-edge control flow protection).", false));
        variants.push(variant("HWAddressSanitizer", "Run hardware-assisted Address sanitizer.", false));
        variants.push(variant("KernelControlFlowIntegrity", "Run Kernel Control Flow Integrity for operating system kernels.", false));
        variants.push(variant("LeakSanitizer", "Run Leak sanitizer (run-time memory leak detector).", false));
        variants.push(variant("MemorySanitizer", "Run Memory sanitizer (detector of uninitialized reads).", false));
        variants.push(variant("MemTagSanitizer", "Run a lower-overhead address sanitizer suited for production binaries.", false));
        variants.push(variant("NightlyChecks", "Run nightly-only checks through cargo-careful.", false));
        variants.push(variant("SafeStack", "Run SafeStack check (backward-edge control flow protection).", false));
        variants.push(variant("ShadowCallStack", "Run ShadowCall check (backward-edge control flow protection, aarch64 only).", false));
        variants.push(variant("ThreadSanitizer", "Run Thread sanitizer (data race detector).", false));
        proof {
            lemma_kind_literals();
            assert(subcommand_kind_names()[7] == "VulnerabilitiesSubCommand"@);
            assert(variant_names(variants@) =~= subcommand_variant_names(kind@));
            reveal_strlit("All");
            reveal_strlit("AddressSanitizer");
            reveal_strlit("ControlFlowIntegrity");
            reveal_strlit("HWAddressSanitizer");
            reveal_strlit("KernelControlFlowIntegrity");
            reveal_strlit("LeakSanitizer");
            reveal_strlit("MemorySanitizer");
            reveal_strlit("MemTagSanitizer");
            reveal_strlit("NightlyChecks");
            reveal_strlit("SafeStack");
            reveal_strlit("ShadowCallStack");
            reveal_strlit("ThreadSanitizer");
            assert forall|i: int, j: int|
                0 <= i < j < variants@.len() implies variants@[i].name@ != variants@[j].name@ by {
                assert(variants@[0].name@ == "All"@ && "All"@.len() == 3 && "All"@[0] == 'A');
                assert(variants@[1].name@ == "AddressSanitizer"@ && "AddressSanitizer"@.len() == 16 && "AddressSanitizer"@[0] == 'A');
                assert(variants@[2].name@ == "ControlFlowIntegrity"@ && "ControlFlowIntegrity"@.len() == 20 && "ControlFlowIntegrity"@[0] == 'C');
                assert(variants@[3].name@ == "HWAddressSanitizer"@ && "HWAddressSanitizer"@.len() == 18 && "HWAddressSanitizer"@[0] == 'H');
                assert(variants@[4].name@ == "KernelControlFlowIntegrity"@ && "KernelControlFlowIntegrity"@.len() == 26 && "KernelControlFlowIntegrity"@[0] == 'K');
                assert(variants@[5].name@ == "LeakSanitizer"@ && "LeakSanitizer"@.len() == 13 && "LeakSanitizer"@[0] == 'L');
                assert(variants@[6].name@ == "MemorySanitizer"@ && "MemorySanitizer"@.len() == 15 && "MemorySanitizer"@[0] == 'M');
                assert(variants@[7].name@ == "MemTagSanitizer"@ && "MemTagSanitizer"@.len() == 15 && "MemTagSanitizer"@[0] == 'M');
                assert(variants@[8].name@ == "NightlyChecks"@ && "NightlyChecks"@.len() == 13 && "NightlyChecks"@[0] == 'N');
                assert(variants@[9].name@ == "SafeStack"@ && "SafeStack"@.len() == 9 && "SafeStack"@[0] == 'S');
                assert(variants@[10].name@ == "ShadowCallStack"@ && "ShadowCallStack"@.len() == 15 && "ShadowCallStack"@[0] == 'S');
                assert(variants@[11].name@ == "ThreadSanitizer"@ && "ThreadSanitizer"@.len() == 15 && "ThreadSanitizer"@[0] == 'T');
                assert("MemorySanitizer"@[3] == 'o' && "MemTagSanitizer"@[3] == 'T');
            }
            lemma_default_count_one(variants@, 0);
        }
        Option::Some(Vocabulary { variants })
    } else {
        proof {
            lemma_kind_literals();
            assert forall|i: int|
                0 <= i < subcommand_kind_names().len() implies subcommand_kind_names()[i]
                != kind@ by {
                assert(subcommand_kind_names()[0] == "BumpSubCommand"@);
                assert(subcommand_kind_names()[1] == "CheckSubCommand"@);
                assert(subcommand_kind_names()[2] == "CoverageSubCommand"@);
                assert(subcommand_kind_names()[3] == "DependenciesSubCommand"@);
                assert(subcommand_kind_names()[4] == "DocSubCommand"@);
                assert(subcommand_kind_names()[5] == "FixSubCommand"@);
                assert(subcommand_kind_names()[6] == "TestSubCommand"@);
                assert(subcommand_kind_names()[7] == "VulnerabilitiesSubCommand"@);
            }
        }
        Option::None
    }
}

/// Extends one base subcommand vocabulary with host-declared variants,
/// keeping the downcast information.  An unrecognized vocabulary name is
/// rejected with an error that enumerates every valid name.
pub fn extend_subcommands(kind: &String, extra: &Vec<VariantDecl>) -> (r: Result<
    ExtendedVocabulary,
    CompositionError,
>)
    ensures
        r is Ok <==> subcommand_kind_names().contains(kind@) && compose_ok(
            subcommand_variant_names(kind@),
            extra@,
        ),
        r matches Ok(e) ==> e.wf() && e.base_count == subcommand_variant_names(kind@).len()
            && e.vocabulary.variants@.len() == subcommand_variant_names(kind@).len()
            + extra@.len() && (forall|i: int|
            0 <= i < subcommand_variant_names(kind@).len() ==> (#[trigger] e.vocabulary.variants@[i]).name@
                == subcommand_variant_names(kind@)[i] && (e.vocabulary.variants@[i].is_default
                <==> subcommand_has_default(kind@) && i == 0 && default_count(extra@) == 0)) && (
        forall|j: int|
            0 <= j < extra@.len() ==> e.vocabulary.variants@[subcommand_variant_names(kind@).len()
                + j] == extra@[j]),
        r matches Err(e) ==> (match e {
            CompositionError::UnknownCommand { name, valid } => !subcommand_kind_names().contains(
                kind@,
            ) && name@ == kind@ && name_views(valid@) == subcommand_kind_names(),
            CompositionError::NameCollision { name } => subcommand_kind_names().contains(kind@)
                && (exists|i: int|
                0 <= i < extra@.len() && #[trigger] collides_at(
                    subcommand_variant_names(kind@),
                    extra@,
                    i,
                ) && name@ == extra@[i].name@),
            CompositionError::MultipleDefaults => subcommand_kind_names().contains(kind@)
                && !has_collision(subcommand_variant_names(kind@), extra@) && default_count(extra@)
                >= 2,
        }),
{
    match base_subcommands(kind) {
        Option::None => Result::Err(
            CompositionError::UnknownCommand {
                name: kind.clone(),
                valid: subcommand_kind_strings(),
            },
        ),
        Option::Some(base) => {
            let r = base.compose(extra);
            proof {
                lemma_compose_from_base(base.variants@, extra@, subcommand_variant_names(kind@));
            }
            match r {
                Result::Ok(e) => {
                    proof {
                        let names = subcommand_variant_names(kind@);
                        let m = crate::vocabulary::merged_variants(base.variants@, extra@);
                        assert forall|i: int|
                            0 <= i < names.len() implies (#[trigger] e.vocabulary.variants@[i]).name@
                            == names[i] && (e.vocabulary.variants@[i].is_default
                            <==> subcommand_has_default(kind@) && i == 0 && default_count(extra@)
                            == 0) by {
                            assert(m[i].name@ == base.variants@[i].name@);
                            assert(variant_names(base.variants@)[i] == base.variants@[i].name@);
                        }
                    }
                    Result::Ok(e)
                },
                Result::Err(err) => Result::Err(err),
            }
        },
    }
}

} // verus!
