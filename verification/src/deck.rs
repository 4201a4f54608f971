//! The deck: an ordered, mutable pack of cards. It is built with one card
//! for every (value, suit) combination, reordered in place by `shuffle`,
//! and shrunk by `deal`, which removes a hand from the end of the pack.

use vstd::prelude::*;
use vstd::seq_lib::lemma_multiset_commutative;
use rand::seq::SliceRandom;
use crate::card::{Card, Suit, Value};

verus! {

/// The one failure the deck can report: a deal asked for more cards
/// than the deck holds.
#[derive(Clone, Copy, Debug, PartialEq, Eq, Structural)]
pub enum DeckError {
    InsufficientCards,
}

/// The full pack in construction order: suits outermost, values innermost,
/// so every card of one suit stands before any card of the next.
pub open spec fn full_deck() -> Seq<Card> {
    seq![
        Card { value: Value::Ace, suit: Suit::Hearts },
        Card { value: Value::Two, suit: Suit::Hearts },
        Card { value: Value::Three, suit: Suit::Hearts },
        Card { value: Value::Ace, suit: Suit::Spades },
        Card { value: Value::Two, suit: Suit::Spades },
        Card { value: Value::Three, suit: Suit::Spades },
        Card { value: Value::Ace, suit: Suit::Diamonds },
        Card { value: Value::Two, suit: Suit::Diamonds },
        Card { value: Value::Three, suit: Suit::Diamonds },
    ]
}

/// Where a card stands in the construction order.
spec fn construction_index(c: Card) -> int {
    let suit_base: int = match c.suit {
        Suit::Hearts => 0,
        Suit::Spades => 3,
        Suit::Diamonds => 6,
    };
    let value_offset: int = match c.value {
        Value::Ace => 0,
        Value::Two => 1,
        Value::Three => 2,
    };
    suit_base + value_offset
}

proof fn lemma_construction_index_inverts(k: int)
    requires
        0 <= k < full_deck().len(),
    ensures
        construction_index(full_deck()[k]) == k,
{
    if k == 0 {
        assert(full_deck()[0] == (Card { value: Value::Ace, suit: Suit::Hearts }));
    } else if k == 1 {
        assert(full_deck()[1] == (Card { value: Value::Two, suit: Suit::Hearts }));
    } else if k == 2 {
        assert(full_deck()[2] == (Card { value: Value::Three, suit: Suit::Hearts }));
    } else if k == 3 {
        assert(full_deck()[3] == (Card { value: Value::Ace, suit: Suit::Spades }));
    } else if k == 4 {
        assert(full_deck()[4] == (Card { value: Value::Two, suit: Suit::Spades }));
    } else if k == 5 {
        assert(full_deck()[5] == (Card { value: Value::Three, suit: Suit::Spades }));
    } else if k == 6 {
        assert(full_deck()[6] == (Card { value: Value::Ace, suit: Suit::Diamonds }));
    } else if k == 7 {
        assert(full_deck()[7] == (Card { value: Value::Two, suit: Suit::Diamonds }));
    } else {
        assert(full_deck()[8] == (Card { value: Value::Three, suit: Suit::Diamonds }));
    }
}

/// Law: the full pack holds exactly nine cards, no two alike, and every
/// (value, suit) combination is among them.
pub proof fn lemma_full_deck_complete()
    ensures
        full_deck().len() == 9,
        full_deck().no_duplicates(),
        forall|c: Card| full_deck().contains(c),
{
    assert forall|i: int, j: int|
        0 <= i < full_deck().len() && 0 <= j < full_deck().len() && i != j
        implies full_deck()[i] != full_deck()[j] by {
        lemma_construction_index_inverts(i);
        lemma_construction_index_inverts(j);
    }
    assert forall|c: Card| full_deck().contains(c) by {
        let k = construction_index(c);
        lemma_construction_index_inverts(k);
        assert(full_deck()[k] == c);
    }
}

/// An ordered, mutable pack of cards. Its view is the sequence of cards it
/// holds, bottom of the stack first; `deal` takes cards from the end.
#[derive(Debug)]
pub struct Deck {
    cards: Vec<Card>,
}

/// rand's thread-local generator, opaque to the verifier.
#[verifier::external_type_specification]
#[verifier::external_body]
pub struct ExThreadRng(rand::rngs::ThreadRng);

/// Relies on rand::thread_rng: hands out the thread-local pseudorandom
/// generator. Nothing is promised of it; no later contract depends on
/// which numbers it draws.
#[verifier::external_body]
fn fresh_rng() -> rand::rngs::ThreadRng {
    rand::thread_rng()
}

/// Relies on rand::seq::SliceRandom::shuffle (a Fisher-Yates walk that only
/// swaps elements of the slice in place): the cards afterwards are a
/// permutation of the cards before, whatever the generator draws.
#[verifier::external_body]
fn shuffle_in_place(cards: &mut Vec<Card>, rng: &mut rand::rngs::ThreadRng)
    ensures
        final(cards)@.to_multiset() == old(cards)@.to_multiset(),
        final(cards)@.len() == old(cards)@.len(),
{
    cards.shuffle(rng)
}

impl View for Deck {
    type V = Seq<Card>;

    closed spec fn view(&self) -> Seq<Card> {
        self.cards@
    }
}

impl Deck {
    /// Builds the full pack: one card for every (value, suit) combination,
    /// suits in the outer position, values in the inner, nine cards in all.
    pub fn new() -> (deck: Deck)
        ensures
            deck@ == full_deck(),
    {
        let mut cards: Vec<Card> = Vec::new();
        cards.push(Card { value: Value::Ace, suit: Suit::Hearts });
        cards.push(Card { value: Value::Two, suit: Suit::Hearts });
        cards.push(Card { value: Value::Three, suit: Suit::Hearts });
        cards.push(Card { value: Value::Ace, suit: Suit::Spades });
        cards.push(Card { value: Value::Two, suit: Suit::Spades });
        cards.push(Card { value: Value::Three, suit: Suit::Spades });
        cards.push(Card { value: Value::Ace, suit: Suit::Diamonds });
        cards.push(Card { value: Value::Two, suit: Suit::Diamonds });
        cards.push(Card { value: Value::Three, suit: Suit::Diamonds });
        proof {
            assert(cards@ =~= full_deck());
        }
        Deck { cards }
    }

    /// Reorders the deck in place with the thread-local generator. The cards
    /// afterwards are a permutation of the cards before: same multiset, same
    /// size, in whatever order the generator chose.
    pub fn shuffle(&mut self)
        ensures
            final(self)@.to_multiset() == old(self)@.to_multiset(),
            final(self)@.len() == old(self)@.len(),
    {
        let mut rng = fresh_rng();
        shuffle_in_place(&mut self.cards, &mut rng);
    }

    /// Removes and returns the last `num_cards` cards of the deck as a hand,
    /// in their relative order. Succeeds exactly when the deck holds at least
    /// `num_cards` cards; otherwise it fails with `InsufficientCards` and
    /// leaves the deck untouched.
    pub fn deal(&mut self, num_cards: usize) -> (r: Result<Vec<Card>, DeckError>)
        ensures
            r is Ok <==> num_cards <= old(self)@.len(),
            r is Ok ==> {
                &&& r->Ok_0@ == old(self)@.subrange(
                    old(self)@.len() - num_cards,
                    old(self)@.len() as int,
                )
                &&& final(self)@ == old(self)@.subrange(0, old(self)@.len() - num_cards)
                &&& old(self)@.to_multiset() == final(self)@.to_multiset().add(
                    r->Ok_0@.to_multiset(),
                )
            },
            r is Err ==> {
                &&& r->Err_0 == DeckError::InsufficientCards
                &&& final(self)@ == old(self)@
            },
    {
        if num_cards > self.cards.len() {
            return Err(DeckError::InsufficientCards);
        }
        let at = self.cards.len() - num_cards;
        let hand = self.cards.split_off(at);
        proof {
            assert(old(self)@ =~= self.cards@ + hand@);
            lemma_multiset_commutative(self.cards@, hand@);
        }
        Ok(hand)
    }

    /// How many cards the deck holds.
    pub fn len(&self) -> (n: usize)
        ensures
            n == self@.len(),
    {
        self.cards.len()
    }

    /// The cards the deck holds, bottom of the stack first.
    pub fn cards(&self) -> (r: &Vec<Card>)
        ensures
            r@ == self@,
    {
        &self.cards
    }
}

} // verus!
