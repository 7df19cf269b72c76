//! The images of the game, by key.

use crate::game::card::{Card, CARD_BACK_PATH};
use vstd::prelude::*;
use vstd::string::StringExecFns;

verus! {

/// What an image shows.
#[derive(Debug, Clone, Copy, PartialEq, Eq, Hash, Structural)]
pub enum ImageKey {
    /// The face of a card.
    Card(Card),
    /// The back of a card.
    CardBack,
}

impl ImageKey {
    /// The path of the image with this key.
    pub open spec fn texture_path_spec(self) -> Seq<char> {
        match self {
            ImageKey::Card(card) => Card::texture_path_spec(card.color, card.variant),
            ImageKey::CardBack => CARD_BACK_PATH@,
        }
    }

    /// The keys of all the images of the game: the back of a card, then the
    /// face of every card that exists.
    pub open spec fn all_variations_spec() -> Seq<ImageKey> {
        seq![ImageKey::CardBack] + Seq::new(
            Card::all_variations_spec().len(),
            |i: int| ImageKey::Card(Card::all_variations_spec()[i]),
        )
    }

    /// The path of the image with this key.
    pub fn texture_path(self) -> (path: String)
        ensures
            path@ == self.texture_path_spec(),
    {
        match self {
            ImageKey::Card(card) => Card::texture_path(card.color, card.variant),
            ImageKey::CardBack => String::from_str(CARD_BACK_PATH),
        }
    }

    /// The keys of all the images to load.
    pub fn all_variations() -> (keys: Vec<ImageKey>)
        ensures
            keys@ == Self::all_variations_spec(),
    {
        let cards = Card::all_variations();
        let mut keys = Vec::new();
        keys.push(ImageKey::CardBack);
        let mut i: usize = 0;
        while i < cards.len()
            invariant
                cards@ == Card::all_variations_spec(),
                i <= cards@.len(),
                keys@.len() == 1 + i,
                forall|j: int| 0 <= j < keys@.len() ==> keys@[j] == Self::all_variations_spec()[j],
            decreases cards@.len() - i,
        {
            keys.push(ImageKey::Card(cards[i]));
            i += 1;
        }
        assert(keys@ =~= Self::all_variations_spec());
        keys
    }
}

} // verus!
