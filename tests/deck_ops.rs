use scoundrel::card::{Card, Rank, Suit};
use scoundrel::deck::Deck;
use std::collections::HashSet;

fn sorted(cards: &[Card]) -> Vec<Card> {
    let mut v = cards.to_vec();
    v.sort();
    v
}

fn in_dungeon(c: &Card) -> bool {
    matches!(c.suit, Suit::Spades | Suit::Clubs) || c.rank.weight() <= 10
}

#[test]
fn dungeon_has_44_distinct_cards() {
    let deck = Deck::dungeon();
    assert_eq!(deck.len(), 44);
    assert!(!deck.is_empty());
    let set: HashSet<Card> = deck.cards().iter().copied().collect();
    assert_eq!(set.len(), 44);
}

#[test]
fn dungeon_composition() {
    let deck = Deck::dungeon();
    let cards = deck.cards();
    assert!(cards.iter().all(in_dungeon));
    for suit in [Suit::Spades, Suit::Clubs] {
        assert_eq!(cards.iter().filter(|c| c.suit == suit).count(), 13);
    }
    for suit in [Suit::Diamonds, Suit::Hearts] {
        assert_eq!(cards.iter().filter(|c| c.suit == suit).count(), 9);
        for rank in [Rank::Jack, Rank::Queen, Rank::King, Rank::Ace] {
            assert!(!cards.contains(&Card::new(suit, rank)));
        }
    }
}

#[test]
fn dungeon_canonical_order() {
    let deck = Deck::dungeon();
    let cards = deck.cards();
    assert_eq!(cards[0], Card::new(Suit::Spades, Rank::Two));
    assert_eq!(cards[12], Card::new(Suit::Spades, Rank::Ace));
    assert_eq!(cards[13], Card::new(Suit::Clubs, Rank::Two));
    assert_eq!(cards[25], Card::new(Suit::Clubs, Rank::Ace));
    assert_eq!(cards[26], Card::new(Suit::Diamonds, Rank::Two));
    assert_eq!(cards[34], Card::new(Suit::Diamonds, Rank::Ten));
    assert_eq!(cards[35], Card::new(Suit::Hearts, Rank::Two));
    assert_eq!(cards[43], Card::new(Suit::Hearts, Rank::Ten));
}

#[test]
fn from_cards_keeps_cards_verbatim() {
    let c = Card::new(Suit::Hearts, Rank::Five);
    let d = Card::new(Suit::Clubs, Rank::King);
    let deck = Deck::from_cards(vec![c, d, c]);
    assert_eq!(deck.cards(), &[c, d, c]);
    assert_eq!(deck.len(), 3);
    let empty = Deck::from_cards(Vec::new());
    assert!(empty.is_empty());
    assert_eq!(empty.len(), 0);
}

#[test]
fn draw_returns_top_card() {
    let a = Card::new(Suit::Spades, Rank::Two);
    let b = Card::new(Suit::Hearts, Rank::Nine);
    let c = Card::new(Suit::Clubs, Rank::Jack);
    let mut deck = Deck::from_cards(vec![a, b, c]);
    assert_eq!(deck.draw(), Some(c));
    assert_eq!(deck.cards(), &[a, b]);
    assert_eq!(deck.draw(), Some(b));
    assert_eq!(deck.draw(), Some(a));
    assert!(deck.is_empty());
}

#[test]
fn draw_on_empty_deck_returns_none() {
    let mut deck = Deck::from_cards(Vec::new());
    assert_eq!(deck.draw(), None);
    assert!(deck.is_empty());
    assert_eq!(deck.draw(), None);
    assert_eq!(deck.len(), 0);
}

#[test]
fn add_to_end_puts_card_on_top() {
    let mut deck = Deck::dungeon();
    let card = Card::new(Suit::Hearts, Rank::Two);
    deck.add_to_end(card);
    assert_eq!(deck.len(), 45);
    assert_eq!(deck.cards()[44], card);
    assert_eq!(deck.draw(), Some(card));
    assert_eq!(deck.cards(), Deck::dungeon().cards());
}

#[test]
fn add_to_empty_deck() {
    let mut deck = Deck::from_cards(Vec::new());
    let card = Card::new(Suit::Spades, Rank::Ace);
    deck.add_to_end(card);
    assert_eq!(deck.cards(), &[card]);
    assert_eq!(deck.draw(), Some(card));
    assert!(deck.is_empty());
}

#[test]
fn draw_then_add_restores_deck() {
    let mut deck = Deck::dungeon();
    let before = deck.cards().to_vec();
    let card = deck.draw().unwrap();
    assert_eq!(deck.len(), 43);
    assert_eq!(card, Card::new(Suit::Hearts, Rank::Ten));
    deck.add_to_end(card);
    assert_eq!(deck.cards(), before.as_slice());
}

#[test]
fn shuffle_keeps_the_same_cards() {
    let mut deck = Deck::dungeon();
    deck.shuffle();
    assert_eq!(deck.len(), 44);
    assert_eq!(sorted(deck.cards()), sorted(Deck::dungeon().cards()));
}

#[test]
fn shuffle_keeps_duplicates_and_counts() {
    let c = Card::new(Suit::Hearts, Rank::Five);
    let d = Card::new(Suit::Clubs, Rank::King);
    let mut deck = Deck::from_cards(vec![c, d, c, c]);
    deck.shuffle();
    assert_eq!(sorted(deck.cards()), sorted(&[c, c, c, d]));
}

#[test]
fn shuffle_changes_the_order() {
    let canonical = Deck::dungeon().cards().to_vec();
    let mut deck = Deck::dungeon();
    deck.shuffle();
    assert_ne!(deck.cards(), canonical.as_slice());
}

#[test]
fn shuffle_fixes_no_position() {
    let canonical = Deck::dungeon().cards().to_vec();
    let mut moved = vec![false; canonical.len()];
    for _ in 0..200 {
        let mut deck = Deck::dungeon();
        deck.shuffle();
        for (i, card) in deck.cards().iter().enumerate() {
            if *card != canonical[i] {
                moved[i] = true;
            }
        }
    }
    assert!(moved.iter().all(|m| *m));
}

#[test]
fn shuffle_empty_and_single() {
    let mut empty = Deck::from_cards(Vec::new());
    empty.shuffle();
    assert!(empty.is_empty());
    let card = Card::new(Suit::Diamonds, Rank::Three);
    let mut single = Deck::from_cards(vec![card]);
    single.shuffle();
    assert_eq!(single.cards(), &[card]);
}

#[test]
fn dungeon_shuffle_then_draw_all() {
    let mut deck = Deck::dungeon();
    assert_eq!(deck.len(), 44);
    let before_shuffle: HashSet<Card> = deck.cards().iter().copied().collect();
    assert_eq!(before_shuffle.len(), 44);
    deck.shuffle();
    let mut drawn = Vec::new();
    for _ in 0..44 {
        drawn.push(deck.draw().expect("a card"));
    }
    assert!(deck.is_empty());
    assert_eq!(deck.draw(), None);
    let drawn_set: HashSet<Card> = drawn.iter().copied().collect();
    assert_eq!(drawn.len(), 44);
    assert_eq!(drawn_set, before_shuffle);
}
