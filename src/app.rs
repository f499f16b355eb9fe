//! The game session: the deck and the card slots that the screen shows, and
//! how input events change them.

use crate::card::Card;
use crate::deck::{dungeon_cards, lemma_dungeon_composition, Deck};
use vstd::prelude::*;

verus! {

/// The key that an input event names.
#[derive(Clone, Copy, Debug, PartialEq, Eq, Structural)]
pub enum Key {
    Char(char),
    Other,
}

/// Whether a key went down, repeated or went up.
#[derive(Clone, Copy, Debug, PartialEq, Eq, Structural)]
pub enum KeyKind {
    Press,
    Repeat,
    Release,
}

/// An input event as far as the session cares about it.
#[derive(Clone, Copy, Debug, PartialEq, Eq, Structural)]
pub enum InputEvent {
    Key(Key, KeyKind),
    Other,
}

/// The key that ends the session.
pub const QUIT_KEY: char = 'q';

/// The cards in an optional single-card slot.
pub open spec fn slot_cards(slot: Option<Card>) -> Seq<Card> {
    match slot {
        Some(c) => seq![c],
        None => Seq::empty(),
    }
}

/// The cards in the optional room.
pub open spec fn room_cards(room: Option<Vec<Card>>) -> Seq<Card> {
    match room {
        Some(cards) => cards@,
        None => Seq::empty(),
    }
}

/// The state of one game session: the draw pile, the current room, the
/// equipped weapon, the last discarded card and the last enemy defeated with
/// a weapon, and whether the player asked to quit.
///
/// Every card of the dungeon deck sits in exactly one of these places.
#[derive(Debug)]
pub struct App {
    exit: bool,
    deck: Deck,
    weapon: Option<Card>,
    discard: Option<Card>,
    last_enemy: Option<Card>,
    room: Option<Vec<Card>>,
}

impl App {
    pub closed spec fn spec_exit(&self) -> bool {
        self.exit
    }

    pub closed spec fn spec_deck(&self) -> Deck {
        self.deck
    }

    pub closed spec fn spec_weapon(&self) -> Option<Card> {
        self.weapon
    }

    pub closed spec fn spec_discard(&self) -> Option<Card> {
        self.discard
    }

    pub closed spec fn spec_last_enemy(&self) -> Option<Card> {
        self.last_enemy
    }

    pub closed spec fn spec_room(&self) -> Option<Vec<Card>> {
        self.room
    }

    /// All cards the session holds: the deck from bottom to top, then the
    /// room, the weapon, the discard and the last enemy.
    pub open spec fn held_cards(&self) -> Seq<Card> {
        self.spec_deck()@ + room_cards(self.spec_room()) + slot_cards(self.spec_weapon())
            + slot_cards(self.spec_discard()) + slot_cards(self.spec_last_enemy())
    }

    /// The session holds each card of the dungeon deck once, and no other.
    #[verifier::type_invariant]
    pub open spec fn wf(&self) -> bool {
        self.held_cards().to_multiset() == dungeon_cards().to_multiset()
    }

    /// A new session: the dungeon deck shuffled, every slot empty.
    pub fn new() -> (r: App)
        ensures
            r.wf(),
            !r.spec_exit(),
            r.spec_deck()@.to_multiset() == dungeon_cards().to_multiset(),
            r.spec_deck()@.len() == 44,
            r.spec_room() is None,
            r.spec_weapon() is None,
            r.spec_discard() is None,
            r.spec_last_enemy() is None,
    {
        let mut deck = Deck::dungeon();
        deck.shuffle();
        proof {
            lemma_dungeon_composition();
        }
        let r = App {
            exit: false,
            deck,
            weapon: None,
            discard: None,
            last_enemy: None,
            room: None,
        };
        assert(r.held_cards() == deck@);
        r
    }

    /// Reacts to a key that went down: the quit key asks the session to end;
    /// every other key does nothing yet.
    pub fn handle_key_event(&mut self, key: Key)
        ensures
            final(self).spec_exit() == (old(self).spec_exit() || key == Key::Char(QUIT_KEY)),
            final(self).spec_deck() == old(self).spec_deck(),
            final(self).spec_room() == old(self).spec_room(),
            final(self).spec_weapon() == old(self).spec_weapon(),
            final(self).spec_discard() == old(self).spec_discard(),
            final(self).spec_last_enemy() == old(self).spec_last_enemy(),
    {
        match key {
            Key::Char(c) => {
                if c == QUIT_KEY {
                    proof {
                        use_type_invariant(&*self);
                    }
                    self.exit = true;
                }
            },
            Key::Other => {},
        }
    }

    /// Reacts to one input event: only key presses count; releases, repeats
    /// and other events change nothing.
    pub fn handle_event(&mut self, event: InputEvent)
        ensures
            final(self).spec_exit() == (old(self).spec_exit() || event == InputEvent::Key(
                Key::Char(QUIT_KEY),
                KeyKind::Press,
            )),
            final(self).spec_deck() == old(self).spec_deck(),
            final(self).spec_room() == old(self).spec_room(),
            final(self).spec_weapon() == old(self).spec_weapon(),
            final(self).spec_discard() == old(self).spec_discard(),
            final(self).spec_last_enemy() == old(self).spec_last_enemy(),
    {
        match event {
            InputEvent::Key(key, KeyKind::Press) => self.handle_key_event(key),
            _ => {},
        }
    }

    /// Whether the player asked to end the session.
    pub fn exit_requested(&self) -> (r: bool)
        ensures
            r == self.spec_exit(),
    {
        self.exit
    }

    pub fn deck(&self) -> (r: &Deck)
        ensures
            *r == self.spec_deck(),
    {
        &self.deck
    }

    pub fn room(&self) -> (r: &Option<Vec<Card>>)
        ensures
            *r == self.spec_room(),
    {
        &self.room
    }

    pub fn weapon(&self) -> (r: Option<Card>)
        ensures
            r == self.spec_weapon(),
    {
        self.weapon
    }

    pub fn discard(&self) -> (r: Option<Card>)
        ensures
            r == self.spec_discard(),
    {
        self.discard
    }

    pub fn last_enemy(&self) -> (r: Option<Card>)
        ensures
            r == self.spec_last_enemy(),
    {
        self.last_enemy
    }
}

/// No card is held twice by a well-formed session: no card sits in two
/// places at once, and no place holds a card twice.
pub proof fn lemma_no_card_held_twice(app: App)
    requires
        app.wf(),
    ensures
        app.held_cards().no_duplicates(),
{
    lemma_dungeon_composition();
    dungeon_cards().lemma_multiset_has_no_duplicates();
    app.held_cards().lemma_multiset_has_no_duplicates_conv();
}

} // verus!
