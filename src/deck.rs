//! The draw pile: an ordered sequence of cards whose end is the top.

use crate::card::{Card, Rank, Suit};
use rand::seq::SliceRandom;
use vstd::prelude::*;

verus! {

/// Weight of the highest rank in a full suit (the ace).
pub const FULL_SUIT_TOP: u8 = 14;

/// Weight of the highest rank kept of the red suits (the ten).
pub const RED_SUIT_TOP: u8 = 10;

/// The cards of one suit from two up to the rank of weight `top`, ascending.
pub open spec fn suit_run(suit: Suit, top: int) -> Seq<Card> {
    Seq::new((top - 1) as nat, |i: int| Card { rank: Rank::spec_from_weight(i + 2), suit })
}

/// The dungeon deck in its canonical order: spades, clubs, diamonds, hearts,
/// each rank-ascending; the red suits stop at ten.
pub open spec fn dungeon_cards() -> Seq<Card> {
    suit_run(Suit::Spades, FULL_SUIT_TOP as int) + suit_run(Suit::Clubs, FULL_SUIT_TOP as int)
        + suit_run(Suit::Diamonds, RED_SUIT_TOP as int) + suit_run(Suit::Hearts, RED_SUIT_TOP as int)
}

/// Whether a card belongs to the dungeon deck: any black card, and the red
/// cards from two to ten.
pub open spec fn in_dungeon(c: Card) -> bool {
    ||| c.suit == Suit::Spades
    ||| c.suit == Suit::Clubs
    ||| c.rank.spec_weight() <= RED_SUIT_TOP
}

/// The cards left after a draw: the top card is gone, if there was one.
pub open spec fn after_draw(s: Seq<Card>) -> Seq<Card> {
    if s.len() == 0 {
        s
    } else {
        s.drop_last()
    }
}

/// The card a draw hands out: the top card, if there is one.
pub open spec fn drawn_card(s: Seq<Card>) -> Option<Card> {
    if s.len() == 0 {
        None
    } else {
        Some(s.last())
    }
}

/// The cards after `c` is put on top.
pub open spec fn after_add(s: Seq<Card>, c: Card) -> Seq<Card> {
    s.push(c)
}

/// An ordered pile of cards; the last card is the top, the next to be drawn.
#[derive(Debug)]
pub struct Deck {
    cards: Vec<Card>,
}

impl View for Deck {
    type V = Seq<Card>;

    closed spec fn view(&self) -> Seq<Card> {
        self.cards@
    }
}

/// Relies on `rand::rng` for the thread-local generator and on rand's
/// `SliceRandom::shuffle`, which reorders the slice by swapping elements
/// (a Fisher-Yates shuffle), so the result holds the same cards.
#[verifier::external_body]
fn shuffle_cards(cards: &mut Vec<Card>)
    ensures
        final(cards)@.to_multiset() == old(cards)@.to_multiset(),
{
    let mut rng = rand::rng();
    cards.shuffle(&mut rng);
}

/// Appends the cards of `suit` from two up to weight `top`.
fn push_suit_run(cards: &mut Vec<Card>, suit: Suit, top: u8)
    requires
        2 <= top <= FULL_SUIT_TOP,
    ensures
        final(cards)@ == old(cards)@ + suit_run(suit, top as int),
{
    let mut w: u8 = 2;
    while w <= top
        invariant
            2 <= w <= top + 1,
            top <= FULL_SUIT_TOP,
            cards@ == old(cards)@ + suit_run(suit, w - 1),
        decreases top + 1 - w,
    {
        let rank = Rank::from_weight(w).unwrap();
        cards.push(Card::new(suit, rank));
        assert(cards@ == old(cards)@ + suit_run(suit, w as int));
        w = w + 1;
    }
}

impl Deck {
    pub fn from_cards(cards: Vec<Card>) -> (r: Deck)
        ensures
            r@ == cards@,
    {
        Deck { cards }
    }

    /// Removes and returns the top card; `None` when the deck is empty.
    pub fn draw(&mut self) -> (r: Option<Card>)
        ensures
            final(self)@ == after_draw(old(self)@),
            r == drawn_card(old(self)@),
    {
        self.cards.pop()
    }

    /// Puts `card` on top of the deck.
    pub fn add_to_end(&mut self, card: Card)
        ensures
            final(self)@ == after_add(old(self)@, card),
    {
        self.cards.push(card);
    }

    /// Reorders the cards at random, keeping each card and its count.
    pub fn shuffle(&mut self)
        ensures
            final(self)@.to_multiset() == old(self)@.to_multiset(),
            final(self)@.len() == old(self)@.len(),
    {
        let ghost before = self@;
        shuffle_cards(&mut self.cards);
        proof {
            before.to_multiset_ensures();
            self@.to_multiset_ensures();
        }
    }

    /// The 44-card dungeon deck, in canonical (unshuffled) order.
    pub fn dungeon() -> (r: Deck)
        ensures
            r@ == dungeon_cards(),
    {
        let mut cards: Vec<Card> = Vec::new();
        push_suit_run(&mut cards, Suit::Spades, FULL_SUIT_TOP);
        push_suit_run(&mut cards, Suit::Clubs, FULL_SUIT_TOP);
        push_suit_run(&mut cards, Suit::Diamonds, RED_SUIT_TOP);
        push_suit_run(&mut cards, Suit::Hearts, RED_SUIT_TOP);
        assert(cards@ == dungeon_cards());
        Deck::from_cards(cards)
    }

    pub fn len(&self) -> (r: usize)
        ensures
            r == self@.len(),
    {
        self.cards.len()
    }

    pub fn is_empty(&self) -> (r: bool)
        ensures
            r <==> self@.len() == 0,
    {
        self.cards.len() == 0
    }

    /// The cards from bottom to top.
    pub fn cards(&self) -> (r: &[Card])
        ensures
            r@ == self@,
    {
        self.cards.as_slice()
    }
}

/// Where each suit's run starts in the canonical dungeon order.
spec fn run_start(suit: Suit) -> int {
    match suit {
        Suit::Spades => 0,
        Suit::Clubs => 13,
        Suit::Diamonds => 26,
        Suit::Hearts => 35,
    }
}

/// The card at each position of the canonical dungeon order.
proof fn lemma_dungeon_index(i: int)
    requires
        0 <= i < 44,
    ensures
        i - run_start(dungeon_cards()[i].suit) + 2 == dungeon_cards()[i].rank.spec_weight(),
        0 <= i - run_start(dungeon_cards()[i].suit),
        in_dungeon(dungeon_cards()[i]),
{
}

/// The dungeon deck holds exactly 44 cards, no card twice, and a card is in it
/// exactly when it is a spade, a club, or a diamond or heart from two to ten.
pub proof fn lemma_dungeon_composition()
    ensures
        dungeon_cards().len() == 44,
        dungeon_cards().no_duplicates(),
        forall|c: Card| dungeon_cards().contains(c) <==> in_dungeon(c),
{
    let s = dungeon_cards();
    assert forall|i: int, j: int| 0 <= i < s.len() && 0 <= j < s.len() && i != j implies s[i]
        != s[j] by {
        lemma_dungeon_index(i);
        lemma_dungeon_index(j);
    }
    assert forall|c: Card| s.contains(c) <==> in_dungeon(c) by {
        if s.contains(c) {
            let i = choose|i: int| 0 <= i < s.len() && s[i] == c;
            lemma_dungeon_index(i);
        }
        if in_dungeon(c) {
            let i = run_start(c.suit) + c.rank.spec_weight() - 2;
            assert(s[i] == c);
        }
    }
}

/// Drawing right after putting `c` on top hands out `c` and leaves the deck
/// as it was; putting a card on top adds one card.
pub proof fn lemma_add_then_draw(s: Seq<Card>, c: Card)
    ensures
        after_add(s, c).len() == s.len() + 1,
        after_add(s, c).last() == c,
        drawn_card(after_add(s, c)) == Some(c),
        after_draw(after_add(s, c)) == s,
{
    assert(after_add(s, c).drop_last() == s);
}

/// Putting the drawn card back on top restores the deck; a draw from a
/// non-empty deck removes one card, and a draw from an empty deck leaves it
/// empty and hands out nothing.
pub proof fn lemma_draw_then_add(s: Seq<Card>)
    ensures
        s.len() > 0 ==> after_draw(s).len() == s.len() - 1,
        s.len() > 0 ==> after_add(after_draw(s), drawn_card(s)->0) == s,
        s.len() == 0 ==> drawn_card(s) is None && after_draw(s).len() == 0,
{
    if s.len() > 0 {
        assert(s.drop_last().push(s.last()) == s);
    }
}

} // verus!
