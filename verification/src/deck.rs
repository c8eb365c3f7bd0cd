use vstd::prelude::*;
use rand::seq::SliceRandom;
use crate::errors::GameError;

verus! {

/// One of the five character types whose possession grants an action.
#[derive(Clone, Copy, Debug, PartialEq, Eq, Structural)]
pub enum Role {
    Ambassador,
    Assassin,
    Captain,
    Contessa,
    Duke,
}

/// A seat's held role token: usable while alive, permanently inert once dead.
#[derive(Clone, Copy, Debug, PartialEq, Eq, Structural)]
pub enum Card {
    Alive(Role),
    Dead(Role),
}

/// The ten role tokens a session starts from: two of each role.
pub open spec fn full_deck() -> Seq<Role> {
    seq![
        Role::Ambassador,
        Role::Ambassador,
        Role::Assassin,
        Role::Assassin,
        Role::Captain,
        Role::Captain,
        Role::Contessa,
        Role::Contessa,
        Role::Duke,
        Role::Duke,
    ]
}

/// A shrinking bag of role tokens. Cards are taken from the end; nothing is
/// ever put back.
pub struct Deck {
    pub cards: Vec<Role>,
}

/// Relies on rand's `SliceRandom::shuffle`: a Fisher-Yates pass that permutes
/// the slice in place, so the tokens are reordered but none added or removed.
#[verifier::external_body]
fn shuffle_roles(cards: &mut Vec<Role>)
    ensures
        final(cards)@.to_multiset() == old(cards)@.to_multiset(),
        final(cards)@.len() == old(cards)@.len(),
{
    cards.shuffle(&mut rand::rng());
}

impl Deck {
    /// A fresh, unshuffled deck: two tokens of each of the five roles.
    pub fn new() -> (d: Deck)
        ensures
            d.cards@ == full_deck(),
    {
        let cards: Vec<Role> = vec![
            Role::Ambassador,
            Role::Ambassador,
            Role::Assassin,
            Role::Assassin,
            Role::Captain,
            Role::Captain,
            Role::Contessa,
            Role::Contessa,
            Role::Duke,
            Role::Duke,
        ];
        proof {
            assert(cards@ =~= full_deck());
        }
        Deck { cards }
    }

    /// Removes and returns the top token. Every draw shrinks the deck by
    /// exactly one card, and a draw from an empty deck is rejected with
    /// `DeckExhausted` instead of panicking.
    pub fn take(&mut self) -> (r: Result<Role, GameError>)
        ensures
            old(self).cards@.len() > 0 ==> r == Ok::<Role, GameError>(old(self).cards@.last())
                && final(self).cards@ == old(self).cards@.drop_last(),
            old(self).cards@.len() == 0 ==> r == Err::<Role, GameError>(GameError::DeckExhausted)
                && final(self).cards@ == old(self).cards@,
    {
        match self.cards.pop() {
            Some(role) => Ok(role),
            None => Err(GameError::DeckExhausted),
        }
    }

    /// Randomizes the order of the remaining tokens; which tokens the deck
    /// holds, and how many, is unchanged.
    pub fn shuffle(&mut self)
        ensures
            final(self).cards@.to_multiset() == old(self).cards@.to_multiset(),
            final(self).cards@.len() == old(self).cards@.len(),
    {
        shuffle_roles(&mut self.cards);
    }
}

} // verus!
