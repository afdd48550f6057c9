//! A confirmation-aware, filterable task dispatcher for multi-package
//! workspaces.
//!
//! The crate has two halves.  The first is vocabulary composition: closed
//! enumerations of targets, commands and subcommands that a host project can
//! extend with its own variants while keeping a fallible downcast back to the
//! base vocabulary, so generic dispatch code keeps working unmodified.  The
//! second is the dispatch engine for the check command: it expands composite
//! subcommands and composite targets into ordered leaf invocations, applies
//! the exclude/only package filters, and threads a single confirmation
//! decision through every recursive step.  Everything that touches the
//! outside world (prompting, spawning the external tools) is left to the
//! caller: the engine only decides, and says exactly what it decided.

use vstd::prelude::*;

pub mod check;
pub mod cmdargs;
pub mod confirm;
pub mod filter;
pub mod registry;
pub mod target;
pub mod text;
pub mod vocabulary;

verus! {

/// The execution environment a task is run for.
#[derive(Clone, Copy, PartialEq, Eq, Structural, Debug)]
pub enum ExecutionEnvironment {
    NoStd,
    Std,
}

impl Default for ExecutionEnvironment {
    /// The standard environment is assumed unless the caller says otherwise.
    fn default() -> (r: Self)
        ensures
            r == ExecutionEnvironment::Std,
    {
        ExecutionEnvironment::Std
    }
}

impl ExecutionEnvironment {
    /// The name under which the environment is shown and selected.
    pub fn display_name(&self) -> (r: String)
        ensures
            *self == ExecutionEnvironment::NoStd ==> r@ == "no-std"@,
            *self == ExecutionEnvironment::Std ==> r@ == "std"@,
    {
        match self {
            ExecutionEnvironment::NoStd => String::from_str("no-std"),
            ExecutionEnvironment::Std => String::from_str("std"),
        }
    }
}

} // verus!
