//! The base target vocabulary: which workspace scope a task applies to.

use vstd::prelude::*;

verus! {

/// Selector for the workspace scope(s) a task applies to.
///
/// `Workspace` addresses the whole workspace as a single compilation unit;
/// `Crates` and `Examples` address every package of that category one by one;
/// `AllPackages` means "every individually-addressable package" and expands
/// into `Crates` then `Examples`, never into `Workspace`.
#[derive(Clone, Copy, PartialEq, Eq, Structural, Debug)]
pub enum Target {
    AllPackages,
    Crates,
    Examples,
    Workspace,
}

impl Default for Target {
    /// A task with no explicit target operates on the whole workspace.
    fn default() -> (r: Self)
        ensures
            r == Target::Workspace,
    {
        Target::Workspace
    }
}

impl Target {
    /// The lower-case name under which the target is shown and selected.
    pub fn display_name(&self) -> (r: String)
        ensures
            *self == Target::AllPackages ==> r@ == "all-packages"@,
            *self == Target::Crates ==> r@ == "crates"@,
            *self == Target::Examples ==> r@ == "examples"@,
            *self == Target::Workspace ==> r@ == "workspace"@,
    {
        match self {
            Target::AllPackages => String::from_str("all-packages"),
            Target::Crates => String::from_str("crates"),
            Target::Examples => String::from_str("examples"),
            Target::Workspace => String::from_str("workspace"),
        }
    }

    /// The concrete sub-targets a target resolves to: `AllPackages`
    /// decomposes into `Crates` then `Examples`, every other target is
    /// already concrete and resolves to itself alone.
    pub open spec fn expansion_spec(self) -> Seq<Target> {
        if self == Target::AllPackages {
            seq![Target::Crates, Target::Examples]
        } else {
            seq![self]
        }
    }

    /// The concrete sub-targets a target resolves to.
    ///
    /// `AllPackages` decomposes into exactly `Crates` then `Examples`, in that
    /// order; it never reaches for `Workspace`, because "every package" is
    /// distinct from "the workspace as one compilation unit".  Every other
    /// target is already concrete and resolves to itself alone.
    pub fn expansion(&self) -> (r: Vec<Target>)
        ensures
            r@ == self.expansion_spec(),
    {
        let mut out: Vec<Target> = Vec::new();
        match self {
            Target::AllPackages => {
                out.push(Target::Crates);
                out.push(Target::Examples);
            }
            _ => {
                out.push(*self);
            }
        }
        proof {
            if *self == Target::AllPackages {
                assert(out@ =~= seq![Target::Crates, Target::Examples]);
            } else {
                assert(out@ =~= seq![*self]);
            }
        }
        out
    }
}

/// Law: the composite target expands to exactly `Crates` then `Examples`,
/// and in particular no target's expansion ever reaches for `Workspace`
/// unless the workspace itself was selected.
pub proof fn lemma_all_packages_expansion(t: Target)
    ensures
        Target::AllPackages.expansion_spec() == seq![Target::Crates, Target::Examples],
        t != Target::Workspace ==> forall|i: int|
            0 <= i < t.expansion_spec().len() ==> t.expansion_spec()[i] != Target::Workspace,
{
}

} // verus!
