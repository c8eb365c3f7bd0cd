use vstd::prelude::*;
use crate::deck::Role;

verus! {

/// A windowed action the current player can propose. A steal names its
/// target by identity.
#[derive(Debug)]
pub enum Action {
    Duke,
    Steal(String),
}

/// A structured intent from the current player: the unblockable tax, which
/// applies at once, or one of the windowed actions, which open an objection
/// window first.
#[derive(Debug)]
pub enum Proposal {
    Tax,
    Duke,
    Steal(String),
}

impl Proposal {
    /// The round record a windowed proposal leaves pending; the instant tax
    /// leaves none.
    pub open spec fn as_action(self) -> Option<Action> {
        match self {
            Proposal::Tax => None,
            Proposal::Duke => Some(Action::Duke),
            Proposal::Steal(t) => Some(Action::Steal(t)),
        }
    }
}

/// What an accepted proposal did.
#[derive(Clone, Copy, Debug, PartialEq, Eq, Structural)]
pub enum ProposeOutcome {
    /// The action was unblockable: its effect is already applied and the
    /// turn has advanced.
    Applied,
    /// The action is pending. The objection window for the named round
    /// generation is open; resolving with that generation closes it.
    WindowOpened(u64),
}

/// What closing an objection window did.
#[derive(Clone, Copy, Debug, PartialEq, Eq, Structural)]
pub enum WindowOutcome {
    /// The window belonged to a round that has since been superseded;
    /// nothing was touched.
    Stale,
    /// No action was pending when the window closed.
    NoPending,
    /// Nobody objected: the pending action's effect was applied and the
    /// turn advanced.
    Committed,
    /// The action was contested: no effect was applied, and the round is
    /// held as it stands for challenge adjudication instead of advancing.
    ChallengePending,
}

/// The bounded-lifetime record of one round: the proposed action, and any
/// contest raised against it before the objection window closes. Each of the
/// four fields is independently optional; a fresh round has all of them empty, and
/// that is the only valid shape while no action is pending.
#[derive(Debug)]
pub struct State {
    /// The action the current player proposed, if any.
    pub action: Option<Action>,
    /// Who called bullshit on the proposed action, if anyone.
    pub bullshit: Option<String>,
    /// A counter-block: the claimant and the role they claim blocks with.
    pub counter: Option<(String, Role)>,
    /// Who called bullshit on the counter-block, if anyone.
    pub counter_bullshit: Option<String>,
}

impl State {
    /// No action, no bullshit call, no counter-block, no call against the
    /// counter-block: the shape of a round that has not begun.
    pub open spec fn is_fresh(self) -> bool {
        &&& self.action is None
        &&& self.bullshit is None
        &&& self.counter is None
        &&& self.counter_bullshit is None
    }

    /// Someone has contested the proposed action, so the window must abort
    /// rather than commit.
    pub open spec fn is_contested(self) -> bool {
        ||| self.bullshit is Some
        ||| self.counter is Some
        ||| self.counter_bullshit is Some
    }

    /// A fresh round record with all four fields empty.
    pub fn new() -> (s: State)
        ensures
            s.is_fresh(),
    {
        State { action: None, bullshit: None, counter: None, counter_bullshit: None }
    }
}

} // verus!
