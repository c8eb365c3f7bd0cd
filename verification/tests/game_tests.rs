use coup::deck::{Card, Deck, Role};
use coup::errors::GameError;
use coup::game::Game;
use coup::player::Player;
use coup::round::{Proposal, ProposeOutcome, WindowOutcome};

fn nick(s: &str) -> String {
    String::from(s)
}

fn two_player_game() -> Game {
    let mut g = Game::new();
    g.join(&nick("alice")).unwrap();
    g.join(&nick("bob")).unwrap();
    g.start().unwrap();
    g
}

#[test]
fn join_deals_two_cards_and_seats_with_two_coins() {
    let mut g = Game::new();
    let (r1, r2) = g.join(&nick("alice")).unwrap();
    assert_eq!(g.deck.cards.len(), 8);
    assert_eq!(g.players.len(), 1);
    let p = &g.players[0];
    assert_eq!(p.nick, "alice");
    assert_eq!(p.coins, 2);
    assert_eq!(p.c1, Card::Alive(r1));
    assert_eq!(p.c2, Card::Alive(r2));
}

#[test]
fn duplicate_join_rejected_and_draws_nothing() {
    let mut g = Game::new();
    g.join(&nick("alice")).unwrap();
    assert_eq!(g.deck.cards.len(), 8);
    assert_eq!(g.join(&nick("alice")), Err(GameError::AlreadyJoined));
    assert_eq!(g.deck.cards.len(), 8);
    assert_eq!(g.players.len(), 1);
}

#[test]
fn start_with_too_few_players_rejected() {
    let mut g = Game::new();
    assert_eq!(g.start(), Err(GameError::NotEnoughPlayers));
    assert!(!g.started);
    g.join(&nick("alice")).unwrap();
    assert_eq!(g.start(), Err(GameError::NotEnoughPlayers));
    assert!(!g.started);
}

#[test]
fn start_begins_at_seat_zero_and_is_monotonic() {
    let mut g = Game::new();
    g.join(&nick("alice")).unwrap();
    g.join(&nick("bob")).unwrap();
    assert_eq!(g.start(), Ok(()));
    assert!(g.started);
    assert_eq!(g.turn, 0);
    assert_eq!(g.start(), Err(GameError::AlreadyStarted));
    assert!(g.started);
}

#[test]
fn join_after_start_rejected() {
    let mut g = two_player_game();
    assert_eq!(g.join(&nick("carol")), Err(GameError::AlreadyStarted));
    assert_eq!(g.players.len(), 2);
    assert_eq!(g.deck.cards.len(), 6);
}

#[test]
fn sixth_join_exhausts_the_deck() {
    let mut g = Game::new();
    for name in ["a", "b", "c", "d", "e"] {
        g.join(&nick(name)).unwrap();
    }
    assert_eq!(g.deck.cards.len(), 0);
    assert_eq!(g.join(&nick("f")), Err(GameError::DeckExhausted));
    assert_eq!(g.players.len(), 5);
}

#[test]
fn overfull_seat_list_rejected_as_full() {
    // Not reachable through join alone (the deck runs out first), but the
    // seat cap is still enforced ahead of any draw.
    let players: Vec<Player> = ["a", "b", "c", "d", "e", "f", "g"]
        .iter()
        .map(|n| Player {
            c1: Card::Dead(Role::Duke),
            c2: Card::Dead(Role::Duke),
            coins: 2,
            nick: String::from(*n),
        })
        .collect();
    let mut g = Game::new();
    g.players = players;
    g.deck = Deck::new();
    assert_eq!(g.join(&nick("h")), Err(GameError::SeatsFull));
    assert_eq!(g.players.len(), 7);
}

#[test]
fn find_player_by_identity() {
    let g = two_player_game();
    assert_eq!(g.find_player(&nick("bob")).unwrap().nick, "bob");
    assert!(g.find_player(&nick("carol")).is_none());
}

#[test]
fn find_player_mut_reaches_the_right_seat() {
    let mut g = two_player_game();
    g.find_player_mut(&nick("bob")).unwrap().adjust_coins(7);
    assert_eq!(g.players[1].coins, 9);
    assert_eq!(g.players[0].coins, 2);
    assert!(g.find_player_mut(&nick("carol")).is_none());
}

#[test]
fn current_player_follows_the_turn() {
    let mut g = two_player_game();
    assert_eq!(g.current_player().nick, "alice");
    g.next_turn();
    assert_eq!(g.current_player().nick, "bob");
    g.current_player_mut().adjust_coins(1);
    assert_eq!(g.players[1].coins, 3);
}

#[test]
fn current_player_ding_names_the_current_player() {
    let g = two_player_game();
    assert_eq!(g.current_player_ding(), "ding alice it's your turn");
}

#[test]
fn turn_cycles_through_three_seats() {
    let mut g = Game::new();
    g.join(&nick("a")).unwrap();
    g.join(&nick("b")).unwrap();
    g.join(&nick("c")).unwrap();
    g.start().unwrap();
    let mut seen = vec![g.turn];
    for _ in 0..6 {
        g.next_turn();
        seen.push(g.turn);
    }
    assert_eq!(seen, vec![0, 1, 2, 0, 1, 2, 0]);
}

#[test]
fn one_resolved_round_advances_the_turn_exactly_once() {
    let mut g = Game::new();
    g.join(&nick("a")).unwrap();
    g.join(&nick("b")).unwrap();
    g.join(&nick("c")).unwrap();
    g.start().unwrap();
    let mut seen = vec![g.turn];
    for name in ["a", "b", "c", "a"] {
        let gen = match g.propose(&nick(name), Proposal::Duke).unwrap() {
            ProposeOutcome::WindowOpened(gen) => gen,
            other => panic!("expected an open window, got {:?}", other),
        };
        assert_eq!(g.resolve_window(gen), WindowOutcome::Committed);
        seen.push(g.turn);
    }
    assert_eq!(seen, vec![0, 1, 2, 0, 1]);
}

#[test]
fn tax_applies_at_once_and_advances() {
    let mut g = two_player_game();
    assert_eq!(g.propose(&nick("alice"), Proposal::Tax), Ok(ProposeOutcome::Applied));
    assert_eq!(g.players[0].coins, 3);
    assert_eq!(g.turn, 1);
    assert!(g.state.action.is_none());
}

#[test]
fn steal_end_to_end_uncontested() {
    let mut g = Game::new();
    g.join(&nick("alice")).unwrap();
    assert_eq!(g.deck.cards.len(), 8);
    g.join(&nick("bob")).unwrap();
    assert_eq!(g.deck.cards.len(), 6);
    g.start().unwrap();
    assert_eq!(g.current_player().nick, "alice");

    let outcome = g.propose(&nick("alice"), Proposal::Steal(nick("bob"))).unwrap();
    let gen = match outcome {
        ProposeOutcome::WindowOpened(gen) => gen,
        other => panic!("expected an open window, got {:?}", other),
    };
    // deferred: nothing applied while the window is open
    assert_eq!(g.players[0].coins, 2);
    assert_eq!(g.players[1].coins, 2);

    assert_eq!(g.resolve_window(gen), WindowOutcome::Committed);
    assert_eq!(g.players[0].coins, 4);
    assert_eq!(g.players[1].coins, 0);
    assert_eq!(g.turn, 1);
    assert_eq!(g.current_player().nick, "bob");
}

#[test]
fn steal_clamps_a_poor_target_at_zero() {
    let mut g = two_player_game();
    g.players[1].adjust_coins(-1);  // bob down to 1 coin
    let gen = match g.propose(&nick("alice"), Proposal::Steal(nick("bob"))).unwrap() {
        ProposeOutcome::WindowOpened(gen) => gen,
        other => panic!("expected an open window, got {:?}", other),
    };
    assert_eq!(g.resolve_window(gen), WindowOutcome::Committed);
    assert_eq!(g.players[1].coins, 0);
    assert_eq!(g.players[0].coins, 4);
}

#[test]
fn duke_bullshit_aborts_and_holds_for_adjudication() {
    let mut g = two_player_game();
    let gen = match g.propose(&nick("alice"), Proposal::Duke).unwrap() {
        ProposeOutcome::WindowOpened(gen) => gen,
        other => panic!("expected an open window, got {:?}", other),
    };
    assert_eq!(g.react_bullshit(&nick("bob")), Ok(()));
    assert_eq!(g.resolve_window(gen), WindowOutcome::ChallengePending);
    // aborted: no coin effect, turn not advanced, round held
    assert_eq!(g.players[0].coins, 2);
    assert_eq!(g.players[1].coins, 2);
    assert_eq!(g.turn, 0);
    assert_eq!(g.pending_challenge().unwrap(), "bob");
}

#[test]
fn block_reaction_is_recorded_and_aborts_the_window() {
    let mut g = two_player_game();
    let gen = match g.propose(&nick("alice"), Proposal::Duke).unwrap() {
        ProposeOutcome::WindowOpened(gen) => gen,
        other => panic!("expected an open window, got {:?}", other),
    };
    assert_eq!(g.react_block(&nick("bob"), Role::Contessa), Ok(()));
    assert_eq!(
        g.state.counter,
        Some((nick("bob"), Role::Contessa)),
    );
    assert_eq!(g.resolve_window(gen), WindowOutcome::ChallengePending);
    assert_eq!(g.players[0].coins, 2);
    assert_eq!(g.turn, 0);
    // a block is not a bullshit call against the action itself
    assert!(g.pending_challenge().is_none());
}

#[test]
fn propose_rejections_leave_the_game_alone() {
    let mut g = Game::new();
    g.join(&nick("alice")).unwrap();
    g.join(&nick("bob")).unwrap();
    assert_eq!(
        g.propose(&nick("alice"), Proposal::Duke),
        Err(GameError::NotStarted)
    );
    g.start().unwrap();
    assert_eq!(
        g.propose(&nick("bob"), Proposal::Duke),
        Err(GameError::NotYourTurn)
    );
    assert_eq!(
        g.propose(&nick("alice"), Proposal::Steal(nick("carol"))),
        Err(GameError::UnknownTarget)
    );
    assert!(g.state.action.is_none());
    let gen = match g.propose(&nick("alice"), Proposal::Duke).unwrap() {
        ProposeOutcome::WindowOpened(gen) => gen,
        other => panic!("expected an open window, got {:?}", other),
    };
    assert_eq!(
        g.propose(&nick("alice"), Proposal::Tax),
        Err(GameError::ActionAlreadyPending)
    );
    assert_eq!(g.resolve_window(gen), WindowOutcome::Committed);
    assert_eq!(g.players[0].coins, 5);
}

#[test]
fn reactions_need_a_started_game_and_a_pending_action() {
    let mut g = Game::new();
    g.join(&nick("alice")).unwrap();
    g.join(&nick("bob")).unwrap();
    assert_eq!(g.react_bullshit(&nick("bob")), Err(GameError::NotStarted));
    g.start().unwrap();
    assert_eq!(g.react_bullshit(&nick("bob")), Err(GameError::NoPendingAction));
    assert_eq!(
        g.react_block(&nick("bob"), Role::Duke),
        Err(GameError::NoPendingAction)
    );
}

#[test]
fn stale_window_touches_nothing() {
    let mut g = two_player_game();
    let gen = match g.propose(&nick("alice"), Proposal::Duke).unwrap() {
        ProposeOutcome::WindowOpened(gen) => gen,
        other => panic!("expected an open window, got {:?}", other),
    };
    // a window scheduled for some other round fires: ignored
    assert_eq!(g.resolve_window(gen.wrapping_add(1)), WindowOutcome::Stale);
    assert!(g.state.action.is_some());
    assert_eq!(g.players[0].coins, 2);
    // the right window still commits
    assert_eq!(g.resolve_window(gen), WindowOutcome::Committed);
    assert_eq!(g.players[0].coins, 5);
    // and firing it again finds its round gone
    assert_eq!(g.resolve_window(gen), WindowOutcome::Stale);
}

#[test]
fn resolve_with_no_pending_action_is_a_no_op() {
    let mut g = two_player_game();
    let gen = g.generation;
    assert_eq!(g.resolve_window(gen), WindowOutcome::NoPending);
    assert_eq!(g.players[0].coins, 2);
    assert_eq!(g.turn, 0);
}

#[test]
fn error_descriptions_are_nonempty() {
    let errors = [
        GameError::DeckExhausted,
        GameError::AlreadyStarted,
        GameError::AlreadyJoined,
        GameError::SeatsFull,
        GameError::NotEnoughPlayers,
        GameError::NotStarted,
        GameError::NotYourTurn,
        GameError::ActionAlreadyPending,
        GameError::UnknownTarget,
        GameError::NoPendingAction,
    ];
    for e in errors {
        assert!(!e.describe().is_empty());
    }
}
