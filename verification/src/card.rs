//! The card itself: a (value, suit) pair and its human-readable label.

use vstd::prelude::*;

verus! {

/// One of the three suits a card can carry.
#[derive(Clone, Copy, Debug, PartialEq, Eq, Structural)]
pub enum Suit {
    Hearts,
    Spades,
    Diamonds,
}

/// One of the three face values a card can carry.
#[derive(Clone, Copy, Debug, PartialEq, Eq, Structural)]
pub enum Value {
    Ace,
    Two,
    Three,
}

/// A playing card. Two cards with the same value and suit are
/// indistinguishable: a card has no identity beyond this pair.
#[derive(Clone, Copy, Debug, PartialEq, Eq, Structural)]
pub struct Card {
    pub value: Value,
    pub suit: Suit,
}

impl Card {
    /// The label that names this card, as a sequence of characters.
    pub open spec fn label_spec(self) -> Seq<char> {
        match (self.value, self.suit) {
            (Value::Ace, Suit::Hearts) => "Ace of Hearts"@,
            (Value::Two, Suit::Hearts) => "Two of Hearts"@,
            (Value::Three, Suit::Hearts) => "Three of Hearts"@,
            (Value::Ace, Suit::Spades) => "Ace of Spades"@,
            (Value::Two, Suit::Spades) => "Two of Spades"@,
            (Value::Three, Suit::Spades) => "Three of Spades"@,
            (Value::Ace, Suit::Diamonds) => "Ace of Diamonds"@,
            (Value::Two, Suit::Diamonds) => "Two of Diamonds"@,
            (Value::Three, Suit::Diamonds) => "Three of Diamonds"@,
        }
    }

    /// Renders the card as its "{value} of {suit}" label. Presentation only:
    /// the deck's logic works on `Card` values, never on their labels.
    pub fn label(&self) -> (r: &'static str)
        ensures
            r@ == self.label_spec(),
    {
        match (self.value, self.suit) {
            (Value::Ace, Suit::Hearts) => "Ace of Hearts",
            (Value::Two, Suit::Hearts) => "Two of Hearts",
            (Value::Three, Suit::Hearts) => "Three of Hearts",
            (Value::Ace, Suit::Spades) => "Ace of Spades",
            (Value::Two, Suit::Spades) => "Two of Spades",
            (Value::Three, Suit::Spades) => "Three of Spades",
            (Value::Ace, Suit::Diamonds) => "Ace of Diamonds",
            (Value::Two, Suit::Diamonds) => "Two of Diamonds",
            (Value::Three, Suit::Diamonds) => "Three of Diamonds",
        }
    }
}

} // verus!
