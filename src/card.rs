//! Ranks, suits and cards, with the total order used to sort cards.

use std::cmp::Ordering;
use vstd::prelude::*;

verus! {

/// Face value of a card, from two up to ace.
#[derive(Clone, Copy, Debug, PartialEq, Eq, Structural, PartialOrd, Ord, Hash)]
pub enum Rank {
    Two,
    Three,
    Four,
    Five,
    Six,
    Seven,
    Eight,
    Nine,
    Ten,
    Jack,
    Queen,
    King,
    Ace,
}

impl Rank {
    /// The weight that orders ranks: two is 2, ..., ten is 10, jack 11, queen 12,
    /// king 13, ace 14.
    pub open spec fn spec_weight(self) -> int {
        match self {
            Rank::Two => 2,
            Rank::Three => 3,
            Rank::Four => 4,
            Rank::Five => 5,
            Rank::Six => 6,
            Rank::Seven => 7,
            Rank::Eight => 8,
            Rank::Nine => 9,
            Rank::Ten => 10,
            Rank::Jack => 11,
            Rank::Queen => 12,
            Rank::King => 13,
            Rank::Ace => 14,
        }
    }

    /// The rank of a given weight, for weights 2 to 14.
    pub open spec fn spec_from_weight(w: int) -> Rank
        recommends
            2 <= w <= 14,
    {
        if w <= 2 {
            Rank::Two
        } else if w == 3 {
            Rank::Three
        } else if w == 4 {
            Rank::Four
        } else if w == 5 {
            Rank::Five
        } else if w == 6 {
            Rank::Six
        } else if w == 7 {
            Rank::Seven
        } else if w == 8 {
            Rank::Eight
        } else if w == 9 {
            Rank::Nine
        } else if w == 10 {
            Rank::Ten
        } else if w == 11 {
            Rank::Jack
        } else if w == 12 {
            Rank::Queen
        } else if w == 13 {
            Rank::King
        } else {
            Rank::Ace
        }
    }

    /// The short label shown on a card.
    pub open spec fn label(self) -> Seq<char> {
        match self {
            Rank::Two => "2"@,
            Rank::Three => "3"@,
            Rank::Four => "4"@,
            Rank::Five => "5"@,
            Rank::Six => "6"@,
            Rank::Seven => "7"@,
            Rank::Eight => "8"@,
            Rank::Nine => "9"@,
            Rank::Ten => "10"@,
            Rank::Jack => "J"@,
            Rank::Queen => "Q"@,
            Rank::King => "K"@,
            Rank::Ace => "A"@,
        }
    }

    pub fn weight(self) -> (r: u8)
        ensures
            r == self.spec_weight(),
    {
        match self {
            Rank::Two => 2,
            Rank::Three => 3,
            Rank::Four => 4,
            Rank::Five => 5,
            Rank::Six => 6,
            Rank::Seven => 7,
            Rank::Eight => 8,
            Rank::Nine => 9,
            Rank::Ten => 10,
            Rank::Jack => 11,
            Rank::Queen => 12,
            Rank::King => 13,
            Rank::Ace => 14,
        }
    }

    /// The rank whose weight is `w`, if there is one.
    pub fn from_weight(w: u8) -> (r: Option<Rank>)
        ensures
            r is Some <==> 2 <= w <= 14,
            r is Some ==> r->0 == Rank::spec_from_weight(w as int),
            r is Some ==> r->0.spec_weight() == w,
    {
        match w {
            2 => Some(Rank::Two),
            3 => Some(Rank::Three),
            4 => Some(Rank::Four),
            5 => Some(Rank::Five),
            6 => Some(Rank::Six),
            7 => Some(Rank::Seven),
            8 => Some(Rank::Eight),
            9 => Some(Rank::Nine),
            10 => Some(Rank::Ten),
            11 => Some(Rank::Jack),
            12 => Some(Rank::Queen),
            13 => Some(Rank::King),
            14 => Some(Rank::Ace),
            _ => None,
        }
    }

    pub fn display(self) -> (r: &'static str)
        ensures
            r@ == self.label(),
    {
        match self {
            Rank::Two => "2",
            Rank::Three => "3",
            Rank::Four => "4",
            Rank::Five => "5",
            Rank::Six => "6",
            Rank::Seven => "7",
            Rank::Eight => "8",
            Rank::Nine => "9",
            Rank::Ten => "10",
            Rank::Jack => "J",
            Rank::Queen => "Q",
            Rank::King => "K",
            Rank::Ace => "A",
        }
    }
}

/// One of the four suits. Suits carry no weight in play; their fixed order
/// only breaks ties between cards of equal rank.
#[derive(Clone, Copy, Debug, PartialEq, Eq, Structural, PartialOrd, Ord, Hash)]
pub enum Suit {
    Clubs,
    Diamonds,
    Hearts,
    Spades,
}

impl Suit {
    /// Position in the tie-break order: clubs, diamonds, hearts, spades.
    pub open spec fn spec_tie_break(self) -> int {
        match self {
            Suit::Clubs => 0,
            Suit::Diamonds => 1,
            Suit::Hearts => 2,
            Suit::Spades => 3,
        }
    }

    pub fn tie_break(self) -> (r: u8)
        ensures
            r == self.spec_tie_break(),
    {
        match self {
            Suit::Clubs => 0,
            Suit::Diamonds => 1,
            Suit::Hearts => 2,
            Suit::Spades => 3,
        }
    }
}

/// A playing card. Two cards are equal when rank and suit are both equal.
///
/// The derived `Ord` compares the rank first and then the suit, by the
/// declaration order of the fields and of the variants; `partial_cmp`
/// below states and proves that same order.
#[derive(Clone, Copy, Debug, PartialEq, Eq, Structural, Ord, Hash)]
pub struct Card {
    pub rank: Rank,
    pub suit: Suit,
}

/// Three-way comparison of two integers.
pub open spec fn compare_int(a: int, b: int) -> Ordering {
    if a < b {
        Ordering::Less
    } else if a > b {
        Ordering::Greater
    } else {
        Ordering::Equal
    }
}

/// The opposite outcome of a comparison.
pub open spec fn reversed(o: Ordering) -> Ordering {
    match o {
        Ordering::Less => Ordering::Greater,
        Ordering::Equal => Ordering::Equal,
        Ordering::Greater => Ordering::Less,
    }
}

impl Card {
    /// Cards ordered by rank weight, ties broken by suit.
    pub open spec fn spec_cmp(self, other: Card) -> Ordering {
        match compare_int(self.rank.spec_weight(), other.rank.spec_weight()) {
            Ordering::Equal => compare_int(self.suit.spec_tie_break(), other.suit.spec_tie_break()),
            o => o,
        }
    }

    pub fn new(suit: Suit, rank: Rank) -> (r: Card)
        ensures
            r.suit == suit,
            r.rank == rank,
    {
        Card { rank, suit }
    }
}

fn compare_u8(a: u8, b: u8) -> (r: Ordering)
    ensures
        r == compare_int(a as int, b as int),
{
    if a < b {
        Ordering::Less
    } else if a > b {
        Ordering::Greater
    } else {
        Ordering::Equal
    }
}

impl PartialOrd for Card {
    fn partial_cmp(&self, other: &Card) -> (r: Option<Ordering>)
        ensures
            r == Some(self.spec_cmp(*other)),
    {
        match compare_u8(self.rank.weight(), other.rank.weight()) {
            Ordering::Equal => Some(compare_u8(self.suit.tie_break(), other.suit.tie_break())),
            o => Some(o),
        }
    }
}

impl vstd::std_specs::cmp::PartialOrdSpecImpl for Card {
    open spec fn obeys_partial_cmp_spec() -> bool {
        true
    }

    open spec fn partial_cmp_spec(&self, other: &Card) -> Option<Ordering> {
        Some(self.spec_cmp(*other))
    }
}

/// Cards form a total order: every card equals itself and compares equal to
/// itself; swapping the two cards reverses the outcome; two cards that are
/// each at most the other are the same card; and both `<=` and `<` are
/// transitive.
pub proof fn lemma_card_order(a: Card, b: Card, c: Card)
    ensures
        a == a,
        a.spec_cmp(a) == Ordering::Equal,
        a.spec_cmp(b) == reversed(b.spec_cmp(a)),
        a.spec_cmp(b) == Ordering::Equal <==> a == b,
        a.spec_cmp(b) != Ordering::Greater && b.spec_cmp(a) != Ordering::Greater ==> a == b,
        a.spec_cmp(b) != Ordering::Greater && b.spec_cmp(c) != Ordering::Greater
            ==> a.spec_cmp(c) != Ordering::Greater,
        a.spec_cmp(b) == Ordering::Less && b.spec_cmp(c) == Ordering::Less
            ==> a.spec_cmp(c) == Ordering::Less,
{
}

} // verus!
