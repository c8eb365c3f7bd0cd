use coup::deck::{Card, Deck, Role};
use coup::errors::GameError;

#[test]
fn draw_decrements_by_one_per_call() {
    let mut d = Deck::new();
    for k in 0..10 {
        assert_eq!(d.cards.len(), 10 - k);
        let drawn = d.take();
        assert!(drawn.is_ok());
        assert_eq!(d.cards.len(), 10 - k - 1);
    }
}

#[test]
fn eleventh_draw_fails_without_panic() {
    let mut d = Deck::new();
    for _ in 0..10 {
        assert!(d.take().is_ok());
    }
    assert_eq!(d.take(), Err(GameError::DeckExhausted));
    assert_eq!(d.cards.len(), 0);
    // and again: still a plain error, still no panic
    assert_eq!(d.take(), Err(GameError::DeckExhausted));
}

#[test]
fn fresh_deck_draws_from_the_top() {
    let mut d = Deck::new();
    assert_eq!(d.take(), Ok(Role::Duke));
    assert_eq!(d.take(), Ok(Role::Duke));
    assert_eq!(d.take(), Ok(Role::Contessa));
    assert_eq!(d.take(), Ok(Role::Contessa));
    assert_eq!(d.take(), Ok(Role::Captain));
}

#[test]
fn shuffle_keeps_two_of_each_role() {
    let mut d = Deck::new();
    d.shuffle();
    assert_eq!(d.cards.len(), 10);
    let mut counts = [0usize; 5];
    for r in &d.cards {
        let slot = match r {
            Role::Ambassador => 0,
            Role::Assassin => 1,
            Role::Captain => 2,
            Role::Contessa => 3,
            Role::Duke => 4,
        };
        counts[slot] += 1;
    }
    assert_eq!(counts, [2, 2, 2, 2, 2]);
}

#[test]
fn cards_distinguish_alive_and_dead() {
    let alive = Card::Alive(Role::Assassin);
    let dead = Card::Dead(Role::Assassin);
    assert_ne!(alive, dead);
    assert_eq!(alive, Card::Alive(Role::Assassin));
}
