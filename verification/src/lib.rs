//! A small card library: a nine-card deck that can be built, shuffled in
//! place, and dealt from the top of the stack, with every operation's
//! behaviour stated and proved.

pub mod card;
pub mod deck;
