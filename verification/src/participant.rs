//! The two identities that take part in a rendezvous.

use vstd::prelude::*;

verus! {

/// One of the two parties of the rendezvous.
#[derive(Clone, Copy, Debug, PartialEq, Eq, Hash, Structural)]
pub enum Participant {
    A,
    B,
}

impl Participant {
    /// The other party.
    pub open spec fn spec_counterpart(self) -> Participant {
        match self {
            Participant::A => Participant::B,
            Participant::B => Participant::A,
        }
    }

    /// The other party.
    #[verifier::when_used_as_spec(spec_counterpart)]
    pub fn counterpart(self) -> (other: Participant)
        ensures
            other == self.spec_counterpart(),
    {
        match self {
            Participant::A => Participant::B,
            Participant::B => Participant::A,
        }
    }
}

} // verus!
