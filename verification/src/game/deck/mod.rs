//! The deck: the cards it is made of, and the panel that tells how many are
//! left while the pointer is over it.

pub mod generator;
pub mod shuffle;

pub use generator::DeckGenerator;

use crate::game::card::Card;
use crate::utils::interactive::Interactive;
use crate::utils::mouse::coordinates::UIMouseCoordinates;
use crate::utils::text::{decimal, push_decimal};
use vstd::prelude::*;
use vstd::string::StringExecFns;

verus! {

/// The cards of a game, in the order in which they will be drawn.
#[derive(Debug, Clone)]
pub struct Deck(pub Vec<Card>);

impl View for Deck {
    type V = Seq<Card>;

    open spec fn view(&self) -> Seq<Card> {
        self.0@
    }
}

impl Default for Deck {
    /// A freshly shuffled standard deck: 108 cards in an order that differs
    /// from one deck to the next, each card as often as the standard
    /// composition says.
    fn default() -> (deck: Self)
        ensures
            deck@.len() == 108,
            deck@.to_multiset() == DeckGenerator::standard().ordered_deck_spec().to_multiset(),
            forall|card: Card| #[trigger]
                deck@.to_multiset().count(card) == DeckGenerator::standard().copies_of(card),
            forall|i: int| 0 <= i < deck@.len() ==> (#[trigger] deck@[i]).valid(),
    {
        Self(DeckGenerator::default().generate_deck())
    }
}

/// How far to the right of the pointer the deck's panel stands, in pixels.
pub const DEFAULT_OFFSET: i64 = 15;

/// Whether something is drawn.
#[derive(Debug, Clone, Copy, PartialEq, Eq, Hash, Structural)]
pub enum Visibility {
    Inherited,
    Hidden,
    Visible,
}

/// The panel that shows how many cards are left in the deck: whether it is
/// shown, where its upper left corner stands on the screen, and what it says.
#[derive(Debug, Clone)]
pub struct DeckNode {
    pub visibility: Visibility,
    pub left: i64,
    pub top: i64,
    pub text: String,
}

/// The objects among `entities` that are hovered.
pub open spec fn hovered(entities: Seq<Interactive>) -> Seq<Interactive> {
    entities.filter(|entity: Interactive| entity.hovered is Some)
}

/// What the deck's panel says when `cards` cards are left.
pub open spec fn remaining_text(cards: nat) -> Seq<char> {
    "cards remaining: "@ + decimal(cards)
}

/// Whether the pointer is over the deck: of the objects that stand for the
/// deck, exactly one is hovered.
pub fn is_deck_hovered(decks: &Vec<Interactive>) -> (deck_hovered: bool)
    ensures
        deck_hovered == (hovered(decks@).len() == 1),
{
    let mut count: usize = 0;
    let mut i: usize = 0;
    while i < decks.len()
        invariant
            i <= decks@.len(),
            count == hovered(decks@.take(i as int)).len(),
            count <= i,
        decreases decks@.len() - i,
    {
        proof {
            reveal(Seq::filter);
            assert(decks@.take(i + 1).drop_last() =~= decks@.take(i as int));
        }
        if decks[i].hovered.is_some() {
            count += 1;
        }
        i += 1;
    }
    assert(decks@.take(i as int) =~= decks@);
    count == 1
}

/// Make the node showing how many cards left in deck and update it's style position, update text inside node
///
/// The panel is shown `DEFAULT_OFFSET` pixels to the right of the pointer,
/// level with it, and says how many cards are left.
pub fn show_deck_data(
    node: &mut DeckNode,
    ui_mouse_coordinates: &UIMouseCoordinates,
    cards_in_deck: usize,
)
    ensures
        final(node).visibility == Visibility::Visible,
        final(node).left == ui_mouse_coordinates.0.x + DEFAULT_OFFSET,
        final(node).top == ui_mouse_coordinates.0.y,
        final(node).text@ == remaining_text(cards_in_deck as nat),
{
    node.left = ui_mouse_coordinates.0.x as i64 + DEFAULT_OFFSET;
    node.top = ui_mouse_coordinates.0.y as i64;

    let mut text = String::from_str("cards remaining: ");
    push_decimal(&mut text, cards_in_deck as u64);
    node.text = text;
    node.visibility = Visibility::Visible;
}

/// Hides the node showing how many cards left in deck
///
/// Its place and its text stay as they are.
pub fn hide_deck_data(node: &mut DeckNode)
    ensures
        final(node).visibility == Visibility::Hidden,
        final(node).left == old(node).left,
        final(node).top == old(node).top,
        final(node).text == old(node).text,
{
    node.visibility = Visibility::Hidden;
}

} // verus!
