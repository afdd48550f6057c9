//! Command-argument composition: the declarative shape of a command's
//! argument set, and the fallible conversion of argument values back to the
//! base vocabularies.

use vstd::prelude::*;

use crate::filter::name_views;
use crate::vocabulary::DowncastError;
use crate::vocabulary::ExtendedVocabulary;

verus! {

/// One field of a command's argument set.
#[derive(Clone, Debug)]
pub struct FieldDecl {
    pub name: String,
    pub doc: String,
}

impl FieldDecl {
    /// An exact copy of the declaration.
    pub fn duplicate(&self) -> (r: FieldDecl)
        ensures
            r == *self,
    {
        FieldDecl { name: self.name.clone(), doc: self.doc.clone() }
    }
}

/// The names of a field list, in order.
pub open spec fn field_names(fs: Seq<FieldDecl>) -> Seq<Seq<char>> {
    fs.map_values(|f: FieldDecl| f.name@)
}

/// The composed shape of a command's argument set: its name and its fields,
/// in order.
#[derive(Clone, Debug)]
pub struct CommandArgsShape {
    pub struct_name: String,
    pub fields: Vec<FieldDecl>,
}

/// The names of the standard fields a command's argument set receives: the
/// target selector with its two package filters when the command addresses a
/// target, one extra field for the test command's thread count, and the
/// subcommand slot when the command has subcommands.
pub open spec fn standard_field_names(
    struct_name: Seq<char>,
    has_target: bool,
    has_subcommand: bool,
) -> Seq<Seq<char>> {
    (if has_target {
        seq!["target"@, "exclude"@, "only"@]
    } else {
        Seq::<Seq<char>>::empty()
    }) + (if struct_name == "TestCmdArgs"@ {
        seq!["threads"@]
    } else {
        Seq::<Seq<char>>::empty()
    }) + (if has_subcommand {
        seq!["command"@]
    } else {
        Seq::<Seq<char>>::empty()
    })
}

/// Declares a command's argument set: the standard fields, then the
/// host-declared extra fields in their declared order.
pub fn declare_command_args(
    struct_name: &String,
    has_target: bool,
    has_subcommand: bool,
    extra: &Vec<FieldDecl>,
) -> (r: CommandArgsShape)
    ensures
        r.struct_name@ == struct_name@,
        field_names(r.fields@) == standard_field_names(struct_name@, has_target, has_subcommand)
            + field_names(extra@),
        forall|j: int|
            0 <= j < extra@.len() ==> r.fields@[standard_field_names(
                struct_name@,
                has_target,
                has_subcommand,
            ).len() + j] == extra@[j],
        has_target ==> r.fields@[0].doc@ == "The target on which executing the command."@
            && r.fields@[1].doc@ == "Comma-separated list of excluded crates."@
            && r.fields@[2].doc@ == "Comma-separated list of crates to include exclusively."@,
{
    let mut fields: Vec<FieldDecl> = Vec::new();
    if has_target {
        fields.push(
            FieldDecl {
                name: String::from_str("target"),
                doc: String::from_str("The target on which executing the command."),
            },
        );
        fields.push(
            FieldDecl {
                name: String::from_str("exclude"),
                doc: String::from_str("Comma-separated list of excluded crates."),
            },
        );
        fields.push(
            FieldDecl {
                name: String::from_str("only"),
                doc: String::from_str("Comma-separated list of crates to include exclusively."),
            },
        );
    }
    let is_test_args = struct_name.eq(&String::from_str("TestCmdArgs"));
    if is_test_args {
        fields.push(
            FieldDecl {
                name: String::from_str("threads"),
                doc: String::from_str("Maximum number of parallel test."),
            },
        );
    }
    if has_subcommand {
        fields.push(FieldDecl { name: String::from_str("command"), doc: String::new() });
    }
    let ghost standard = standard_field_names(struct_name@, has_target, has_subcommand);
    proof {
        assert(field_names(fields@) =~= standard);
    }
    let mut j: usize = 0;
    while j < extra.len()
        invariant
            j <= extra@.len(),
            standard == standard_field_names(struct_name@, has_target, has_subcommand),
            fields@.len() == standard.len() + j,
            field_names(fields@.take(standard.len() as int)) == standard,
            forall|k: int| 0 <= k < j ==> fields@[standard.len() + k] == extra@[k],
            has_target ==> fields@[0].doc@ == "The target on which executing the command."@
                && fields@[1].doc@ == "Comma-separated list of excluded crates."@
                && fields@[2].doc@ == "Comma-separated list of crates to include exclusively."@,
        decreases extra@.len() - j,
    {
        fields.push(extra[j].duplicate());
        proof {
            assert(fields@.take(standard.len() as int) =~= fields@.drop_last().take(
                standard.len() as int,
            ));
        }
        j += 1;
    }
    proof {
        assert(field_names(fields@) =~= standard + field_names(extra@));
    }
    CommandArgsShape { struct_name: struct_name.clone(), fields }
}

/// Extends a base command's argument set: the shape is the same as a fresh
/// declaration; values travel back to the base vocabularies through
/// [`downcast_command_args`].
pub fn extend_command_args(
    struct_name: &String,
    has_target: bool,
    has_subcommand: bool,
    extra: &Vec<FieldDecl>,
) -> (r: CommandArgsShape)
    ensures
        r.struct_name@ == struct_name@,
        field_names(r.fields@) == standard_field_names(struct_name@, has_target, has_subcommand)
            + field_names(extra@),
        forall|j: int|
            0 <= j < extra@.len() ==> r.fields@[standard_field_names(
                struct_name@,
                has_target,
                has_subcommand,
            ).len() + j] == extra@[j],
{
    declare_command_args(struct_name, has_target, has_subcommand, extra)
}

/// The values of a command's standard arguments: the selected target and
/// subcommand as positions in their (possibly extended) vocabularies, and
/// the two package filters.
#[derive(Clone, Debug)]
pub struct CommandArgsValue {
    pub target: Option<usize>,
    pub command: Option<usize>,
    pub exclude: Vec<String>,
    pub only: Vec<String>,
}

/// Whether an argument value downcasts to the base vocabularies: its target
/// and subcommand, where present, must be base-originated.
pub open spec fn args_downcast_ok(
    v: CommandArgsValue,
    targets: ExtendedVocabulary,
    subcommands: ExtendedVocabulary,
) -> bool {
    (match v.target {
        Option::Some(t) => targets.is_base_value(t as int),
        Option::None => true,
    }) && (match v.command {
        Option::Some(c) => subcommands.is_base_value(c as int),
        Option::None => true,
    })
}

/// An exact copy of a name list.
fn clone_names(v: &Vec<String>) -> (r: Vec<String>)
    ensures
        r@ == v@,
{
    let mut out: Vec<String> = Vec::new();
    let mut i: usize = 0;
    while i < v.len()
        invariant
            i <= v@.len(),
            out@ == v@.take(i as int),
        decreases v@.len() - i,
    {
        out.push(v[i].clone());
        proof {
            assert(v@.take(i + 1) =~= v@.take(i as int).push(v@[i as int]));
        }
        i += 1;
    }
    proof {
        assert(v@.take(v@.len() as int) =~= v@);
    }
    out
}

/// Converts a command's argument values back to the base vocabularies.
///
/// The target and the subcommand are downcast — the identity on
/// base-originated values — and the exclude and only filters are carried
/// over unchanged; the conversion fails on the first host-only value, the
/// target being examined before the subcommand.
pub fn downcast_command_args(
    v: &CommandArgsValue,
    targets: &ExtendedVocabulary,
    subcommands: &ExtendedVocabulary,
) -> (r: Result<CommandArgsValue, DowncastError>)
    requires
        v.target matches Option::Some(t) ==> t < targets.vocabulary.variants@.len(),
        v.command matches Option::Some(c) ==> c < subcommands.vocabulary.variants@.len(),
    ensures
        r is Ok <==> args_downcast_ok(*v, *targets, *subcommands),
        r matches Ok(b) ==> b.target == v.target && b.command == v.command && b.exclude@
            == v.exclude@ && b.only@ == v.only@,
        r matches Err(e) ==> (match v.target {
            Option::Some(t) if !targets.is_base_value(t as int) => e.variant@
                == crate::text::lower_chars(targets.vocabulary.variants@[t as int].name@),
            _ => v.command matches Option::Some(c) && !subcommands.is_base_value(c as int)
                && e.variant@ == crate::text::lower_chars(
                subcommands.vocabulary.variants@[c as int].name@,
            ),
        }),
{
    let target: Option<usize> = match v.target {
        Option::Some(t) => {
            match targets.downcast(t) {
                Result::Ok(b) => Option::Some(b),
                Result::Err(e) => {
                    return Result::Err(e);
                },
            }
        },
        Option::None => Option::None,
    };
    let command: Option<usize> = match v.command {
        Option::Some(c) => {
            match subcommands.downcast(c) {
                Result::Ok(b) => Option::Some(b),
                Result::Err(e) => {
                    return Result::Err(e);
                },
            }
        },
        Option::None => Option::None,
    };
    Result::Ok(
        CommandArgsValue {
            target,
            command,
            exclude: clone_names(&v.exclude),
            only: clone_names(&v.only),
        },
    )
}

} // verus!
