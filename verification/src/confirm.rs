//! The confirmation manager: a per-invocation yes/no gate, decided at most
//! once and then shared read-only by every nested call.

use vstd::prelude::*;

verus! {

/// The tri-state confirmation of one top-level invocation: not yet decided,
/// or decided once and for all.
#[derive(Clone, Copy, PartialEq, Eq, Structural, Debug)]
pub enum Confirmation {
    Unset,
    Decided(bool),
}

impl Confirmation {
    /// What resolving against this state yields: `Some(b)` is the decision,
    /// reached without prompting; `None` means the caller must prompt once
    /// and record the reply.
    ///
    /// An incoming `Some` is how an outer recursive call suppresses
    /// re-prompting in nested calls: it is returned as it stands.  With no
    /// incoming decision the cached decision answers, and only the unset
    /// state asks for a prompt.
    pub open spec fn resolution(self, incoming: Option<bool>) -> Option<bool> {
        match incoming {
            Option::Some(b) => Option::Some(b),
            Option::None => match self {
                Confirmation::Unset => Option::None,
                Confirmation::Decided(b) => Option::Some(b),
            },
        }
    }

    /// Resolves an incoming decision against the cached state without
    /// prompting; `None` tells the caller that a prompt is owed.
    pub fn resolve(&self, incoming: Option<bool>) -> (r: Option<bool>)
        ensures
            r == self.resolution(incoming),
    {
        match incoming {
            Option::Some(b) => Option::Some(b),
            Option::None => match self {
                Confirmation::Unset => Option::None,
                Confirmation::Decided(b) => Option::Some(*b),
            },
        }
    }

    /// Records the reply to the one prompt of this invocation.  Only an
    /// undecided confirmation can be recorded, so the decision is made at
    /// most once and is read-only afterwards.
    pub fn record(&mut self, answer: bool)
        requires
            *old(self) == Confirmation::Unset,
        ensures
            *final(self) == Confirmation::Decided(answer),
    {
        *self = Confirmation::Decided(answer);
    }
}

/// Law: a confirmation resolved with an incoming decision never triggers a
/// prompt and returns that decision unchanged; resolved with none, the unset
/// state asks for exactly one prompt, and once a reply is recorded every
/// later resolution returns the cached reply without prompting.
pub proof fn lemma_confirmation_asked_once(c: Confirmation, b: bool)
    ensures
        c.resolution(Option::Some(b)) == Option::Some(b),
        Confirmation::Unset.resolution(Option::None) is None,
        Confirmation::Decided(b).resolution(Option::None) == Option::Some(b),
{
}

} // verus!
