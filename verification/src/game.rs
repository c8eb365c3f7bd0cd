use vstd::prelude::*;
use crate::deck::{Deck, Role, Card, full_deck};
use crate::errors::GameError;
use crate::player::{Player, coin_adjust};
use crate::round::{Action, Proposal, ProposeOutcome, State, WindowOutcome};

verus! {

/// The turn index that follows `t` among `n` seats: one step around the
/// circular seat list.
pub open spec fn turn_after(t: int, n: int) -> int {
    (t + 1) % n
}

/// The round-generation counter that follows `g`: one more, wrapping at the
/// machine maximum so advancing a round never overflows.
pub open spec fn gen_inc(g: u64) -> u64 {
    if g == u64::MAX {
        0u64
    } else {
        (g + 1) as u64
    }
}

/// `p` with its coin balance replaced: cards and identity kept.
pub open spec fn with_coins(p: Player, coins: u64) -> Player {
    Player { c1: p.c1, c2: p.c2, coins, nick: p.nick }
}

/// The seat list after seat `c` gains `amount` coins (clamped).
pub open spec fn gain_effect(players: Seq<Player>, c: int, amount: i64) -> Seq<Player> {
    players.update(c, with_coins(players[c], coin_adjust(players[c].coins, amount)))
}

/// The seat list after a steal: seat `t` loses two coins (clamped at zero),
/// then seat `c` gains two. Applying the loss first makes the formula right
/// even when a player steals from themselves.
pub open spec fn steal_effect(players: Seq<Player>, t: int, c: int) -> Seq<Player> {
    let mid = players.update(t, with_coins(players[t], coin_adjust(players[t].coins, -2i64)));
    mid.update(c, with_coins(mid[c], coin_adjust(mid[c].coins, 2i64)))
}

/// The root aggregate of one game session: the ordered seat list (join order
/// is turn order), the deck, the started flag, the turn pointer, the current
/// round, and a generation counter that ties a scheduled objection window to
/// the round it was opened for.
pub struct Game {
    pub players: Vec<Player>,
    pub started: bool,
    pub deck: Deck,
    pub turn: usize,
    pub state: State,
    pub generation: u64,
}

impl Game {
    /// Some seat holds this identity.
    pub open spec fn seated(self, nick: Seq<char>) -> bool {
        exists|i: int| 0 <= i < self.players@.len() && self.players@[i].nick@ == nick
    }

    /// The seat holding identity `nick` (meaningful when `seated(nick)` and
    /// identities are distinct).
    pub open spec fn seat_of(self, nick: Seq<char>) -> int {
        choose|i: int| 0 <= i < self.players@.len() && self.players@[i].nick@ == nick
    }

    /// No two seats hold the same identity.
    pub open spec fn nicks_distinct(self) -> bool {
        forall|i: int, j: int|
            0 <= i < j < self.players@.len() ==> self.players@[i].nick@ != self.players@[j].nick@
    }

    /// If a steal is pending, its target holds a seat.
    pub open spec fn action_target_seated(self) -> bool {
        match self.state.action {
            Some(Action::Steal(t)) => self.seated(t@),
            _ => true,
        }
    }

    /// The session invariant. Every seat was dealt two cards from the deck,
    /// so the deck and the seat list together always account for the ten
    /// tokens; identities are unique; the turn pointer is a valid seat once
    /// the game has started; an action can only be pending in a started
    /// game; and a round with no action has no reactions either.
    pub open spec fn wf(self) -> bool {
        &&& self.players@.len() <= 5
        &&& self.deck.cards@.len() + 2 * self.players@.len() == 10
        &&& self.nicks_distinct()
        &&& (self.started ==> 2 <= self.players@.len() && (self.turn as int) < self.players@.len())
        &&& (!self.started ==> self.turn == 0)
        &&& (self.state.action is Some ==> self.started)
        &&& (self.state.action is None ==> self.state.is_fresh())
        &&& self.action_target_seated()
    }

    /// A fresh session: no seats, not started, a full shuffled deck, a fresh
    /// round, and the generation counter at zero.
    pub fn new() -> (g: Game)
        ensures
            g.wf(),
            !g.started,
            g.players@.len() == 0,
            g.turn == 0,
            g.generation == 0,
            g.state.is_fresh(),
            g.deck.cards@.len() == 10,
            g.deck.cards@.to_multiset() == full_deck().to_multiset(),
    {
        let mut deck = Deck::new();
        deck.shuffle();
        Game {
            players: Vec::new(),
            started: false,
            deck,
            turn: 0,
            state: State::new(),
            generation: 0,
        }
    }

    /// The seat index holding `nick`, scanning in seat order, if any.
    fn find_index(&self, nick: &String) -> (r: Option<usize>)
        ensures
            match r {
                Some(i) => (i as int) < self.players@.len() && self.players@[i as int].nick@
                    == nick@,
                None => !self.seated(nick@),
            },
    {
        let mut i: usize = 0;
        while i < self.players.len()
            invariant
                i <= self.players@.len(),
                forall|j: int| 0 <= j < i ==> self.players@[j].nick@ != nick@,
            decreases self.players@.len() - i,
        {
            if self.players[i].nick.eq(nick) {
                return Some(i);
            }
            i = i + 1;
        }
        None
    }

    /// The seat holding `nick`, if any.
    pub fn find_player(&self, nick: &String) -> (r: Option<&Player>)
        ensures
            match r {
                Some(p) => self.seated(nick@) && p.nick@ == nick@ && exists|i: int|
                    0 <= i < self.players@.len() && *p == self.players@[i],
                None => !self.seated(nick@),
            },
    {
        match self.find_index(nick) {
            Some(i) => {
                let p = &self.players[i];
                proof {
                    assert(*p == self.players@[i as int]);
                }
                Some(p)
            },
            None => None,
        }
    }

    /// Mutable access to the seat holding `nick`, if any. The seat list
    /// afterwards is the old list with that one seat replaced by whatever
    /// the caller leaves behind the reference.
    pub fn find_player_mut(&mut self, nick: &String) -> (r: Option<&mut Player>)
        ensures
            final(self).started == old(self).started,
            final(self).deck == old(self).deck,
            final(self).turn == old(self).turn,
            final(self).state == old(self).state,
            final(self).generation == old(self).generation,
            match r {
                Some(p) => old(self).seated(nick@) && p.nick@ == nick@ && exists|i: int|
                    #![auto]
                    0 <= i < old(self).players@.len() && *p == old(self).players@[i]
                        && final(self).players@ == old(self).players@.update(i, *final(p)),
                None => !old(self).seated(nick@) && final(self).players == old(self).players,
            },
    {
        match self.find_index(nick) {
            Some(i) => Some(&mut self.players[i]),
            None => None,
        }
    }

    /// The seat whose turn it is.
    pub fn current_player(&self) -> (p: &Player)
        requires
            (self.turn as int) < self.players@.len(),
        ensures
            *p == self.players@[self.turn as int],
    {
        &self.players[self.turn]
    }

    /// Mutable access to the seat whose turn it is.
    pub fn current_player_mut(&mut self) -> (p: &mut Player)
        requires
            (old(self).turn as int) < old(self).players@.len(),
        ensures
            *p == old(self).players@[old(self).turn as int],
            final(self).players@ == old(self).players@.update(
                old(self).turn as int,
                *final(p),
            ),
            final(self).started == old(self).started,
            final(self).deck == old(self).deck,
            final(self).turn == old(self).turn,
            final(self).state == old(self).state,
            final(self).generation == old(self).generation,
    {
        &mut self.players[self.turn]
    }

    /// The announcement that tells the current player it is their turn.
    pub fn current_player_ding(&self) -> (r: String)
        requires
            (self.turn as int) < self.players@.len(),
        ensures
            r@ == "ding "@ + self.players@[self.turn as int].nick@ + " it's your turn"@,
    {
        let mut msg = String::from_str("ding ");
        msg.append(self.players[self.turn].nick.as_str());
        msg.append(" it's your turn");
        msg
    }

    /// Advances the turn pointer one seat around the list and replaces the
    /// round record wholesale with a fresh one, moving the generation
    /// counter on so that any window scheduled for the old round goes stale.
    pub fn next_turn(&mut self)
        requires
            (old(self).turn as int) < old(self).players@.len(),
        ensures
            final(self).players == old(self).players,
            final(self).deck == old(self).deck,
            final(self).started == old(self).started,
            final(self).turn as int == turn_after(
                old(self).turn as int,
                old(self).players@.len() as int,
            ),
            final(self).state.is_fresh(),
            final(self).generation == gen_inc(old(self).generation),
    {
        let n = self.players.len();
        self.turn = (self.turn + 1) % n;
        self.state = State::new();
        self.generation = if self.generation == u64::MAX {
            0
        } else {
            self.generation + 1
        };
    }

    /// Commits a duke: the current player gains three coins and the turn
    /// advances with a fresh round.
    pub fn duke(&mut self)
        requires
            (old(self).turn as int) < old(self).players@.len(),
        ensures
            final(self).players@ == gain_effect(old(self).players@, old(self).turn as int, 3i64),
            final(self).deck == old(self).deck,
            final(self).started == old(self).started,
            final(self).turn as int == turn_after(
                old(self).turn as int,
                old(self).players@.len() as int,
            ),
            final(self).state.is_fresh(),
            final(self).generation == gen_inc(old(self).generation),
    {
        let t = self.turn;
        let p = &mut self.players[t];
        p.adjust_coins(3);
        proof {
            assert(self.players@ =~= gain_effect(old(self).players@, old(self).turn as int, 3i64));
        }
        self.next_turn();
    }

    /// Applies a tax: the current player gains one coin and the turn
    /// advances with a fresh round. Tax is unblockable, so this runs at
    /// once, with no objection window.
    pub fn tax(&mut self)
        requires
            (old(self).turn as int) < old(self).players@.len(),
        ensures
            final(self).players@ == gain_effect(old(self).players@, old(self).turn as int, 1i64),
            final(self).deck == old(self).deck,
            final(self).started == old(self).started,
            final(self).turn as int == turn_after(
                old(self).turn as int,
                old(self).players@.len() as int,
            ),
            final(self).state.is_fresh(),
            final(self).generation == gen_inc(old(self).generation),
    {
        let t = self.turn;
        let p = &mut self.players[t];
        p.adjust_coins(1);
        proof {
            assert(self.players@ =~= gain_effect(old(self).players@, old(self).turn as int, 1i64));
        }
        self.next_turn();
    }

    /// Commits a steal: the target loses two coins (clamped at zero), the
    /// current player gains two, and the turn advances with a fresh round.
    /// An unknown target is rejected with nothing mutated, where the turn
    /// pointer stays put.
    pub fn steal(&mut self, target: &String) -> (r: Result<(), GameError>)
        requires
            (old(self).turn as int) < old(self).players@.len(),
            old(self).nicks_distinct(),
        ensures
            match r {
                Ok(_) => old(self).seated(target@) && final(self).players@ == steal_effect(
                    old(self).players@,
                    old(self).seat_of(target@),
                    old(self).turn as int,
                ) && final(self).deck == old(self).deck && final(self).started == old(self).started
                    && final(self).turn as int == turn_after(
                    old(self).turn as int,
                    old(self).players@.len() as int,
                ) && final(self).state.is_fresh() && final(self).generation == gen_inc(
                    old(self).generation,
                ),
                Err(e) => e == GameError::UnknownTarget && !old(self).seated(target@)
                    && *final(self) == *old(self),
            },
    {
        let ti = match self.find_index(target) {
            Some(i) => i,
            None => {
                return Err(GameError::UnknownTarget);
            },
        };
        proof {
            assert(self.players@[ti as int].nick@ == target@);
            assert(self.seated(target@));
            let j = self.seat_of(target@);
            assert(0 <= j < self.players@.len() && self.players@[j].nick@ == target@);
            assert(j == ti as int);
        }
        let tp = &mut self.players[ti];
        tp.adjust_coins(-2);
        let c = self.turn;
        let cp = &mut self.players[c];
        cp.adjust_coins(2);
        proof {
            assert(self.players@ =~= steal_effect(
                old(self).players@,
                old(self).seat_of(target@),
                old(self).turn as int,
            ));
        }
        self.next_turn();
        Ok(())
    }

    /// Seats a new player before the game starts: two cards are drawn from
    /// the top of the deck as that seat's private hand and the seat begins
    /// with two coins. A rejected join mutates nothing; in particular a
    /// duplicate identity is turned away before anything is drawn.
    pub fn join(&mut self, nick: &String) -> (r: Result<(Role, Role), GameError>)
        requires
            old(self).wf(),
        ensures
            final(self).wf(),
            r is Err ==> *final(self) == *old(self),
            old(self).started ==> r == Err::<(Role, Role), GameError>(GameError::AlreadyStarted),
            !old(self).started && old(self).seated(nick@) ==> r == Err::<(Role, Role), GameError>(
                GameError::AlreadyJoined,
            ),
            !old(self).started && !old(self).seated(nick@) && old(self).players@.len() > 6 ==> r
                == Err::<(Role, Role), GameError>(GameError::SeatsFull),
            !old(self).started && !old(self).seated(nick@) && old(self).players@.len() <= 6
                && old(self).deck.cards@.len() < 2 ==> r == Err::<(Role, Role), GameError>(
                GameError::DeckExhausted,
            ),
            !old(self).started && !old(self).seated(nick@) && old(self).players@.len() <= 6
                && old(self).deck.cards@.len() >= 2 ==> match r {
                Ok(cards) => {
                    &&& cards.0 == old(self).deck.cards@.last()
                    &&& cards.1 == old(self).deck.cards@[old(self).deck.cards@.len() - 2]
                    &&& final(self).deck.cards@ == old(self).deck.cards@.subrange(
                        0,
                        old(self).deck.cards@.len() - 2,
                    )
                    &&& final(self).players@ == old(self).players@.push(
                        (Player {
                            c1: Card::Alive(cards.0),
                            c2: Card::Alive(cards.1),
                            coins: 2,
                            nick: *nick,
                        }),
                    )
                    &&& final(self).started == old(self).started
                    &&& final(self).turn == old(self).turn
                    &&& final(self).state == old(self).state
                    &&& final(self).generation == old(self).generation
                },
                Err(_) => false,
            },
    {
        if self.started {
            return Err(GameError::AlreadyStarted);
        }
        if self.find_index(nick).is_some() {
            return Err(GameError::AlreadyJoined);
        }
        if self.players.len() > 6 {
            return Err(GameError::SeatsFull);
        }
        if self.deck.cards.len() < 2 {
            return Err(GameError::DeckExhausted);
        }
        let c1 = match self.deck.take() {
            Ok(role) => role,
            Err(e) => {
                return Err(e);
            },
        };
        let c2 = match self.deck.take() {
            Ok(role) => role,
            Err(e) => {
                return Err(e);
            },
        };
        proof {
            assert(self.deck.cards@ =~= old(self).deck.cards@.subrange(
                0,
                old(self).deck.cards@.len() - 2,
            ));
        }
        let player = Player { c1: Card::Alive(c1), c2: Card::Alive(c2), coins: 2, nick: nick.clone() };
        self.players.push(player);
        proof {
            let ps = self.players@;
            let n = ps.len();
            assert forall|i: int, j: int| 0 <= i < j < n implies ps[i].nick@ != ps[j].nick@ by {
                if j < n - 1 {
                    assert(old(self).players@[i].nick@ != old(self).players@[j].nick@);
                } else {
                    assert(ps[i] == old(self).players@[i]);
                    assert(ps[j].nick@ == nick@);
                }
            }
        }
        Ok((c1, c2))
    }

    /// Starts the game once at least two players are seated: the started
    /// flag flips (monotonically: nothing ever clears it) and the turn
    /// pointer begins at seat zero. With fewer than two seats the start is
    /// rejected and the flag stays false.
    pub fn start(&mut self) -> (r: Result<(), GameError>)
        requires
            old(self).wf(),
        ensures
            final(self).wf(),
            r is Err ==> *final(self) == *old(self),
            old(self).started ==> r == Err::<(), GameError>(GameError::AlreadyStarted),
            !old(self).started && old(self).players@.len() < 2 ==> r == Err::<(), GameError>(
                GameError::NotEnoughPlayers,
            ) && !final(self).started,
            !old(self).started && old(self).players@.len() >= 2 ==> r == Ok::<(), GameError>(())
                && final(self).started && final(self).turn == 0
                && final(self).players == old(self).players
                && final(self).deck == old(self).deck
                && final(self).state == old(self).state
                && final(self).generation == old(self).generation,
    {
        if self.started {
            return Err(GameError::AlreadyStarted);
        }
        if self.players.len() < 2 {
            return Err(GameError::NotEnoughPlayers);
        }
        self.started = true;
        self.turn = 0;
        Ok(())
    }

    /// The proposal's steal target, where it has one, holds a seat.
    pub open spec fn proposal_target_seated(self, proposal: Proposal) -> bool {
        match proposal {
            Proposal::Steal(t) => self.seated(t@),
            _ => true,
        }
    }

    /// The proposer holds the seat whose turn it is.
    pub open spec fn is_current(self, nick: Seq<char>) -> bool {
        self.players@[self.turn as int].nick@ == nick
    }

    /// The seat list an uncontested pending action commits to on window
    /// expiry; with no pending action, the seat list as it stands.
    pub open spec fn commit_effect(self) -> Seq<Player> {
        match self.state.action {
            Some(Action::Duke) => gain_effect(self.players@, self.turn as int, 3i64),
            Some(Action::Steal(t)) => steal_effect(
                self.players@,
                self.seat_of(t@),
                self.turn as int,
            ),
            None => self.players@,
        }
    }

    /// Validates and records a proposal by the current player. The instant
    /// tax is applied at once and the turn advances; a windowed action is
    /// recorded as pending and the caller is told which round generation to
    /// close the objection window for. A rejected proposal mutates nothing.
    pub fn propose(&mut self, nick: &String, proposal: Proposal) -> (r: Result<
        ProposeOutcome,
        GameError,
    >)
        requires
            old(self).wf(),
        ensures
            final(self).wf(),
            r is Err ==> *final(self) == *old(self),
            !old(self).started ==> r == Err::<ProposeOutcome, GameError>(GameError::NotStarted),
            old(self).started && !old(self).is_current(nick@) ==> r == Err::<
                ProposeOutcome,
                GameError,
            >(GameError::NotYourTurn),
            old(self).started && old(self).is_current(nick@) && old(self).state.action is Some
                ==> r == Err::<ProposeOutcome, GameError>(GameError::ActionAlreadyPending),
            old(self).started && old(self).is_current(nick@) && old(self).state.action is None
                && !old(self).proposal_target_seated(proposal) ==> r == Err::<
                ProposeOutcome,
                GameError,
            >(GameError::UnknownTarget),
            old(self).started && old(self).is_current(nick@) && old(self).state.action is None
                && old(self).proposal_target_seated(proposal) && proposal is Tax ==> r == Ok::<
                ProposeOutcome,
                GameError,
            >(ProposeOutcome::Applied) && final(self).players@ == gain_effect(
                old(self).players@,
                old(self).turn as int,
                1i64,
            ) && final(self).deck == old(self).deck && final(self).started
                && final(self).turn as int == turn_after(
                old(self).turn as int,
                old(self).players@.len() as int,
            ) && final(self).state.is_fresh() && final(self).generation == gen_inc(
                old(self).generation,
            ),
            old(self).started && old(self).is_current(nick@) && old(self).state.action is None
                && old(self).proposal_target_seated(proposal) && !(proposal is Tax) ==> r == Ok::<
                ProposeOutcome,
                GameError,
            >(ProposeOutcome::WindowOpened(old(self).generation)) && final(self).state.action
                == proposal.as_action() && final(self).state.bullshit is None
                && final(self).state.counter is None
                && final(self).state.counter_bullshit is None
                && final(self).players == old(self).players
                && final(self).deck == old(self).deck
                && final(self).turn == old(self).turn && final(self).started
                && final(self).generation == old(self).generation,
    {
        if !self.started {
            return Err(GameError::NotStarted);
        }
        let t = self.turn;
        if !self.players[t].nick.eq(nick) {
            return Err(GameError::NotYourTurn);
        }
        if self.state.action.is_some() {
            return Err(GameError::ActionAlreadyPending);
        }
        match proposal {
            Proposal::Tax => {
                self.tax();
                proof {
                    lemma_gain_effect_nicks(old(self).players@, old(self).turn as int, 1i64);
                    lemma_same_nicks(old(self).players@, self.players@);
                    assert((self.turn as int) < self.players@.len());
                }
                Ok(ProposeOutcome::Applied)
            },
            Proposal::Duke => {
                self.state.action = Some(Action::Duke);
                Ok(ProposeOutcome::WindowOpened(self.generation))
            },
            Proposal::Steal(target) => {
                if self.find_index(&target).is_none() {
                    return Err(GameError::UnknownTarget);
                }
                self.state.action = Some(Action::Steal(target));
                Ok(ProposeOutcome::WindowOpened(self.generation))
            },
        }
    }

    /// Records a bullshit call against the pending action. The challenge is
    /// not resolved here: the open window sees it when it expires and aborts
    /// the action. A call with no action pending, or before the game starts,
    /// is rejected with nothing mutated.
    pub fn react_bullshit(&mut self, nick: &String) -> (r: Result<(), GameError>)
        requires
            old(self).wf(),
        ensures
            final(self).wf(),
            r is Err ==> *final(self) == *old(self),
            !old(self).started ==> r == Err::<(), GameError>(GameError::NotStarted),
            old(self).started && old(self).state.action is None ==> r == Err::<(), GameError>(
                GameError::NoPendingAction,
            ),
            old(self).started && old(self).state.action is Some ==> r == Ok::<(), GameError>(())
                && final(self).state.bullshit == Some(*nick) && final(self).state.action == old(self).state.action && final(self).state.counter == old(self).state.counter && final(self).state.counter_bullshit == old(self).state.counter_bullshit && final(self).players
                == old(self).players && final(self).deck == old(self).deck && final(self).turn
                == old(self).turn && final(self).started && final(self).generation == old(self).generation,
    {
        if !self.started {
            return Err(GameError::NotStarted);
        }
        if self.state.action.is_none() {
            return Err(GameError::NoPendingAction);
        }
        self.state.bullshit = Some(nick.clone());
        Ok(())
    }

    /// Records a counter-block claim against the pending action. This is a
    /// declared stub of the command surface: the claim is recorded so the
    /// window aborts rather than commits, and nothing further resolves it.
    pub fn react_block(&mut self, nick: &String, role: Role) -> (r: Result<(), GameError>)
        requires
            old(self).wf(),
        ensures
            final(self).wf(),
            r is Err ==> *final(self) == *old(self),
            !old(self).started ==> r == Err::<(), GameError>(GameError::NotStarted),
            old(self).started && old(self).state.action is None ==> r == Err::<(), GameError>(
                GameError::NoPendingAction,
            ),
            old(self).started && old(self).state.action is Some ==> r == Ok::<(), GameError>(())
                && final(self).state.counter == Some((*nick, role)) && final(self).state.action
                == old(self).state.action && final(self).state.bullshit == old(self).state.bullshit && final(self).state.counter_bullshit == old(self).state.counter_bullshit && final(self).players == old(self).players && final(self).deck == old(self).deck && final(self).turn == old(self).turn && final(self).started
                && final(self).generation == old(self).generation,
    {
        if !self.started {
            return Err(GameError::NotStarted);
        }
        if self.state.action.is_none() {
            return Err(GameError::NoPendingAction);
        }
        self.state.counter = Some((nick.clone(), role));
        Ok(())
    }

    /// Closes the objection window that was opened for round `generation`.
    /// A stale window (the round has been superseded) touches nothing, as
    /// does one that finds no pending action. Otherwise the decision is made
    /// against the round record as it stands now, not as it stood at
    /// proposal time: uncontested, the action's effect is committed and the
    /// turn advances; contested, nothing is applied and the round is held
    /// for challenge adjudication.
    pub fn resolve_window(&mut self, generation: u64) -> (r: WindowOutcome)
        requires
            old(self).wf(),
        ensures
            final(self).wf(),
            generation != old(self).generation ==> r == WindowOutcome::Stale && *final(self)
                == *old(self),
            generation == old(self).generation && old(self).state.action is None ==> r
                == WindowOutcome::NoPending && *final(self) == *old(self),
            generation == old(self).generation && old(self).state.action is Some && old(self).state.is_contested() ==> r == WindowOutcome::ChallengePending && *final(self)
                == *old(self),
            generation == old(self).generation && old(self).state.action is Some && !old(self).state.is_contested() ==> r == WindowOutcome::Committed && final(self).players@
                == old(self).commit_effect() && final(self).deck == old(self).deck && final(self).started && final(self).turn as int == turn_after(
                old(self).turn as int,
                old(self).players@.len() as int,
            ) && final(self).state.is_fresh() && final(self).generation == gen_inc(
                old(self).generation,
            ),
    {
        if generation != self.generation {
            return WindowOutcome::Stale;
        }
        if self.state.action.is_none() {
            return WindowOutcome::NoPending;
        }
        let contested = self.state.bullshit.is_some() || self.state.counter.is_some()
            || self.state.counter_bullshit.is_some();
        if contested {
            return WindowOutcome::ChallengePending;
        }
        let act: Action = match &self.state.action {
            Some(Action::Duke) => Action::Duke,
            Some(Action::Steal(t)) => Action::Steal(t.clone()),
            None => vstd::pervasive::unreached(),
        };
        match act {
            Action::Duke => {
                self.duke();
                proof {
                    lemma_gain_effect_nicks(old(self).players@, old(self).turn as int, 3i64);
                    lemma_same_nicks(old(self).players@, self.players@);
                    assert((self.turn as int) < self.players@.len());
                }
            },
            Action::Steal(target) => {
                let res = self.steal(&target);
                proof {
                    assert(res is Ok);
                    lemma_steal_effect_nicks(
                        old(self).players@,
                        old(self).seat_of(target@),
                        old(self).turn as int,
                    );
                    lemma_same_nicks(old(self).players@, self.players@);
                    assert((self.turn as int) < self.players@.len());
                }
            },
        }
        WindowOutcome::Committed
    }

    /// The identity whose bullshit call is waiting on adjudication, if the
    /// held round carries one. How the challenge itself resolves (who flips
    /// which card, and what a mismatch costs) is an unresolved extension
    /// point: the engine only holds the round and names the challenger.
    pub fn pending_challenge(&self) -> (r: Option<&String>)
        ensures
            match r {
                Some(b) => self.state.action is Some && self.state.bullshit == Some(*b),
                None => !(self.state.action is Some && self.state.bullshit is Some),
            },
    {
        if self.state.action.is_some() {
            match &self.state.bullshit {
                Some(b) => Some(b),
                None => None,
            }
        } else {
            None
        }
    }
}

/// A seat list with the same identity at every seat keeps distinctness.
proof fn lemma_same_nicks(ps0: Seq<Player>, ps1: Seq<Player>)
    requires
        ps1.len() == ps0.len(),
        forall|k: int| 0 <= k < ps0.len() ==> #[trigger] ps1[k].nick@ == ps0[k].nick@,
    ensures
        (forall|i: int, j: int|
            0 <= i < j < ps0.len() ==> ps0[i].nick@ != ps0[j].nick@) ==> (forall|i: int, j: int|
            0 <= i < j < ps1.len() ==> ps1[i].nick@ != ps1[j].nick@),
{
}

/// A coin gain at one seat leaves every seat's identity in place.
proof fn lemma_gain_effect_nicks(ps: Seq<Player>, c: int, amount: i64)
    requires
        0 <= c < ps.len(),
    ensures
        gain_effect(ps, c, amount).len() == ps.len(),
        forall|k: int|
            0 <= k < ps.len() ==> #[trigger] gain_effect(ps, c, amount)[k].nick@ == ps[k].nick@,
{
}

/// A steal between two seats leaves every seat's identity in place.
proof fn lemma_steal_effect_nicks(ps: Seq<Player>, t: int, c: int)
    requires
        0 <= t < ps.len(),
        0 <= c < ps.len(),
    ensures
        steal_effect(ps, t, c).len() == ps.len(),
        forall|k: int|
            0 <= k < ps.len() ==> #[trigger] steal_effect(ps, t, c)[k].nick@ == ps[k].nick@,
{
}

} // verus!
