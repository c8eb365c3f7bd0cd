use vstd::prelude::*;

verus! {

/// Every way an operation on the game can be rejected. All of these are
/// recoverable, user-visible rejections: a rejected operation leaves the
/// game untouched and never terminates the process.
#[derive(Clone, Copy, Debug, PartialEq, Eq, Structural)]
pub enum GameError {
    /// A card was requested from an empty deck.
    DeckExhausted,
    /// The game has already started; no further joins or starts.
    AlreadyStarted,
    /// The joining identity already holds a seat.
    AlreadyJoined,
    /// The seat list is full.
    SeatsFull,
    /// Fewer than two players are seated, so the game cannot start.
    NotEnoughPlayers,
    /// The game has not started yet.
    NotStarted,
    /// The proposer is not the current-turn player.
    NotYourTurn,
    /// A proposed action is already waiting on its objection window.
    ActionAlreadyPending,
    /// The named steal target is not a seated player.
    UnknownTarget,
    /// A reaction arrived while no action was pending.
    NoPendingAction,
}

impl GameError {
    /// The user-facing description each rejection is announced with.
    pub open spec fn spec_description(self) -> Seq<char> {
        match self {
            GameError::DeckExhausted => "the deck is out of cards"@,
            GameError::AlreadyStarted => "Game already started"@,
            GameError::AlreadyJoined => "You're already in the game"@,
            GameError::SeatsFull => "Can't have a game with more than 6 players"@,
            GameError::NotEnoughPlayers => "Need more than 2 players"@,
            GameError::NotStarted => "the game hasn't started"@,
            GameError::NotYourTurn => "it's not their turn"@,
            GameError::ActionAlreadyPending => "You've already made your choice"@,
            GameError::UnknownTarget => "I don't know who that is"@,
            GameError::NoPendingAction => "No action to object to"@,
        }
    }

    /// A short, never-empty user-facing description of the rejection.
    pub fn describe(&self) -> (r: &'static str)
        ensures
            r@ == self.spec_description(),
            r@.len() > 0,
    {
        let s: &'static str = match self {
            GameError::DeckExhausted => "the deck is out of cards",
            GameError::AlreadyStarted => "Game already started",
            GameError::AlreadyJoined => "You're already in the game",
            GameError::SeatsFull => "Can't have a game with more than 6 players",
            GameError::NotEnoughPlayers => "Need more than 2 players",
            GameError::NotStarted => "the game hasn't started",
            GameError::NotYourTurn => "it's not their turn",
            GameError::ActionAlreadyPending => "You've already made your choice",
            GameError::UnknownTarget => "I don't know who that is",
            GameError::NoPendingAction => "No action to object to",
        };
        proof {
            reveal_strlit("the deck is out of cards");
            reveal_strlit("Game already started");
            reveal_strlit("You're already in the game");
            reveal_strlit("Can't have a game with more than 6 players");
            reveal_strlit("Need more than 2 players");
            reveal_strlit("the game hasn't started");
            reveal_strlit("it's not their turn");
            reveal_strlit("You've already made your choice");
            reveal_strlit("I don't know who that is");
            reveal_strlit("No action to object to");
        }
        s
    }
}

} // verus!
