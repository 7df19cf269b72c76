//! Deck generation: a fixed number of copies of every card, shuffled.

use crate::game::card::{Card, CardColor, CardVariant};
use crate::game::deck::shuffle::shuffle;
use vstd::prelude::*;

verus! {

/// `number` copies of `card`.
pub open spec fn copies(card: Card, number: nat) -> Seq<Card> {
    Seq::new(number, |i: int| card)
}

/// `number` copies of the variant in each of the four colours: the blue
/// ones, then the yellow, the red and the green ones.
pub open spec fn colored_copies(variant: CardVariant, number: nat) -> Seq<Card> {
    copies(Card { color: CardColor::Blue, variant }, number) + copies(
        Card { color: CardColor::Yellow, variant },
        number,
    ) + copies(Card { color: CardColor::Red, variant }, number) + copies(
        Card { color: CardColor::Green, variant },
        number,
    )
}

/// `number` copies of the variant, with the colour `Wild`.
pub open spec fn wild_copies(variant: CardVariant, number: nat) -> Seq<Card> {
    copies(Card { color: CardColor::Wild, variant }, number)
}

/// Add any card a given `number` of times
pub fn add_card(card: Card, number: u8) -> (cards: Vec<Card>)
    ensures
        cards@ == copies(card, number as nat),
{
    let mut cards = Vec::new();
    let mut added: u8 = 0;
    while added < number
        invariant
            added <= number,
            cards@ == copies(card, added as nat),
        decreases number - added,
    {
        cards.push(card);
        added += 1;
        assert(cards@ =~= copies(card, added as nat));
    }
    cards
}

/// Add all colored variants of a card a given `number` of times
pub fn add_colored_card(variant: CardVariant, number: u8) -> (cards: Vec<Card>)
    ensures
        cards@ == colored_copies(variant, number as nat),
{
    let mut cards = Vec::new();
    let mut blue = add_card(Card { color: CardColor::Blue, variant }, number);
    cards.append(&mut blue);
    let mut yellow = add_card(Card { color: CardColor::Yellow, variant }, number);
    cards.append(&mut yellow);
    let mut red = add_card(Card { color: CardColor::Red, variant }, number);
    cards.append(&mut red);
    let mut green = add_card(Card { color: CardColor::Green, variant }, number);
    cards.append(&mut green);
    assert(cards@ =~= colored_copies(variant, number as nat));
    cards
}

/// Add a Wild card a given `number` of times
pub fn add_wild_card(variant: CardVariant, number: u8) -> (cards: Vec<Card>)
    ensures
        cards@ == wild_copies(variant, number as nat),
{
    add_card(Card { color: CardColor::Wild, variant }, number)
}

/// How many cards of each kind a deck holds.
pub struct DeckGenerator {
    /// Copies of the 0 of each colour.
    pub number0: u8,
    /// Copies of each number from 1 to 9 of each colour.
    pub numbers: u8,
    /// Copies of the invert card of each colour.
    pub invert: u8,
    /// Copies of the block card of each colour.
    pub block: u8,
    /// Copies of the +2 card of each colour.
    pub plus_2: u8,
    /// Copies of the +4 card.
    pub plus_4: u8,
    /// Copies of the wild card.
    pub wild_card: u8,
}

impl Default for DeckGenerator {
    /// The standard composition: one 0 and two of each other number and of
    /// each action per colour, four +4 and four wild cards.
    fn default() -> (generator: Self)
        ensures
            generator == DeckGenerator::standard(),
    {
        Self { number0: 1, numbers: 2, invert: 2, block: 2, plus_2: 2, plus_4: 4, wild_card: 4 }
    }
}

impl DeckGenerator {
    /// The standard composition.
    pub open spec fn standard() -> DeckGenerator {
        DeckGenerator {
            number0: 1,
            numbers: 2,
            invert: 2,
            block: 2,
            plus_2: 2,
            plus_4: 4,
            wild_card: 4,
        }
    }

    /// The coloured copies of the numbers from 1 to `upto`, in rising order.
    pub open spec fn numbered_copies(self, upto: nat) -> Seq<Card>
        decreases upto,
    {
        if upto == 0 {
            Seq::empty()
        } else {
            self.numbered_copies((upto - 1) as nat) + colored_copies(
                CardVariant::Number(upto as u8),
                self.numbers as nat,
            )
        }
    }

    /// The deck as it is filled, before it is shuffled: the coloured 0 cards,
    /// the coloured numbers from 1 to 9, the coloured block, invert and +2
    /// cards, the +4 cards and the wild cards.
    pub open spec fn ordered_deck_spec(self) -> Seq<Card> {
        colored_copies(CardVariant::Number(0), self.number0 as nat) + self.numbered_copies(9)
            + colored_copies(CardVariant::Block, self.block as nat) + colored_copies(
            CardVariant::Invert,
            self.invert as nat,
        ) + colored_copies(CardVariant::PlusTwo, self.plus_2 as nat) + wild_copies(
            CardVariant::PlusFour,
            self.plus_4 as nat,
        ) + wild_copies(CardVariant::Wild, self.wild_card as nat)
    }

    /// The table of the deck's composition: how often `card` is in a deck.
    /// A card that does not exist in the game is in no deck.
    pub open spec fn copies_of(self, card: Card) -> nat {
        if !card.valid() {
            0
        } else {
            match card.variant {
                CardVariant::Number(number) => if number == 0 {
                    self.number0 as nat
                } else {
                    self.numbers as nat
                },
                CardVariant::Invert => self.invert as nat,
                CardVariant::Block => self.block as nat,
                CardVariant::PlusTwo => self.plus_2 as nat,
                CardVariant::PlusFour => self.plus_4 as nat,
                CardVariant::Wild => self.wild_card as nat,
            }
        }
    }

    /// The number of cards in a deck: the table's entries, each counted for
    /// every card it stands for.
    pub open spec fn deck_size(self) -> nat {
        (4 * self.number0 + 36 * self.numbers + 4 * self.block + 4 * self.invert + 4 * self.plus_2
            + self.plus_4 + self.wild_card) as nat
    }

    /// The deck in the order in which it is filled, not yet shuffled.
    pub fn ordered_deck(&self) -> (deck: Vec<Card>)
        ensures
            deck@ == self.ordered_deck_spec(),
    {
        let mut deck = Vec::new();

        // Add all colored 0 cards
        let mut zeros = add_colored_card(CardVariant::Number(0), self.number0);
        deck.append(&mut zeros);
        // Add all colored cards from 1 to 9
        let mut card_number: u8 = 1;
        while card_number <= 9
            invariant
                1 <= card_number <= 10,
                deck@ == colored_copies(CardVariant::Number(0), self.number0 as nat)
                    + self.numbered_copies((card_number - 1) as nat),
            decreases 10 - card_number,
        {
            let mut run = add_colored_card(CardVariant::Number(card_number), self.numbers);
            deck.append(&mut run);
            card_number += 1;
            assert(deck@ =~= colored_copies(CardVariant::Number(0), self.number0 as nat)
                + self.numbered_copies((card_number - 1) as nat));
        }
        // Add all colored block cards
        let mut blocks = add_colored_card(CardVariant::Block, self.block);
        deck.append(&mut blocks);
        // Add all colored invert cards
        let mut inverts = add_colored_card(CardVariant::Invert, self.invert);
        deck.append(&mut inverts);
        // Add all colored +2 cards
        let mut plus_twos = add_colored_card(CardVariant::PlusTwo, self.plus_2);
        deck.append(&mut plus_twos);
        // Add all +4 cards
        let mut plus_fours = add_wild_card(CardVariant::PlusFour, self.plus_4);
        deck.append(&mut plus_fours);
        // Add all wild cards
        let mut wild_cards = add_wild_card(CardVariant::Wild, self.wild_card);
        deck.append(&mut wild_cards);
        deck
    }

    /// ## Generates a deck.
    ///
    /// Each card that can be colored is created N x C times, with N being the number of times
    /// we want that card to be created and C the number of possible colors the card has.
    ///
    /// The deck is the ordered deck, shuffled: whatever order the shuffle
    /// gives, it holds every card as often as the table says, and only cards
    /// that exist in the game.
    pub fn generate_deck(self) -> (deck: Vec<Card>)
        ensures
            deck@.to_multiset() == self.ordered_deck_spec().to_multiset(),
            deck@.len() == self.deck_size(),
            forall|card: Card| #[trigger] deck@.to_multiset().count(card) == self.copies_of(card),
            forall|i: int| 0 <= i < deck@.len() ==> (#[trigger] deck@[i]).valid(),
    {
        let mut deck = self.ordered_deck();

        // shuffle the deck using rand
        shuffle(&mut deck);
        proof {
            lemma_ordered_deck_size(self);
            assert forall|card: Card| #[trigger]
                deck@.to_multiset().count(card) == self.copies_of(card) by {
                lemma_ordered_deck_composition(self, card);
            }
            assert forall|i: int| 0 <= i < deck@.len() implies (#[trigger] deck@[i]).valid() by {
                deck@.to_multiset_ensures();
                assert(deck@.contains(deck@[i]));
                assert(deck@.to_multiset().count(deck@[i]) > 0);
            }
        }
        deck
    }
}

/// How often `card` stands in a concatenation: as often as in both parts
/// together.
pub proof fn lemma_count_concat(first: Seq<Card>, second: Seq<Card>, card: Card)
    ensures
        (first + second).to_multiset().count(card) == first.to_multiset().count(card)
            + second.to_multiset().count(card),
{
    vstd::seq_lib::lemma_multiset_commutative(first, second);
}

/// `number` copies of a card hold that card `number` times and no other.
pub proof fn lemma_copies_count(of: Card, number: nat, card: Card)
    ensures
        copies(of, number).to_multiset().count(card) == if card == of {
            number
        } else {
            0
        },
    decreases number,
{
    if number == 0 {
        assert(copies(of, number) =~= Seq::empty());
        copies(of, number).to_multiset_ensures();
        assert(copies(of, number).to_multiset().len() == 0);
        vstd::multiset::axiom_count_le_len(copies(of, number).to_multiset(), card);
    } else {
        let fewer = copies(of, (number - 1) as nat);
        lemma_copies_count(of, (number - 1) as nat, card);
        assert(copies(of, number) =~= fewer.push(of));
        vstd::seq_lib::to_multiset_build(fewer, of);
    }
}

/// The coloured copies of a variant hold each of its four coloured cards
/// `number` times and no other card.
pub proof fn lemma_colored_copies_count(variant: CardVariant, number: nat, card: Card)
    ensures
        colored_copies(variant, number).to_multiset().count(card) == if card.variant == variant
            && card.color != CardColor::Wild {
            number
        } else {
            0
        },
{
    let blue = copies(Card { color: CardColor::Blue, variant }, number);
    let yellow = copies(Card { color: CardColor::Yellow, variant }, number);
    let red = copies(Card { color: CardColor::Red, variant }, number);
    let green = copies(Card { color: CardColor::Green, variant }, number);
    lemma_copies_count(Card { color: CardColor::Blue, variant }, number, card);
    lemma_copies_count(Card { color: CardColor::Yellow, variant }, number, card);
    lemma_copies_count(Card { color: CardColor::Red, variant }, number, card);
    lemma_copies_count(Card { color: CardColor::Green, variant }, number, card);
    lemma_count_concat(blue, yellow, card);
    lemma_count_concat(blue + yellow, red, card);
    lemma_count_concat(blue + yellow + red, green, card);
}

/// The coloured copies of the numbers from 1 to `upto` hold each coloured
/// card of such a number `numbers` times and no other card.
pub proof fn lemma_numbered_copies_count(generator: DeckGenerator, upto: nat, card: Card)
    requires
        upto <= 255,
    ensures
        generator.numbered_copies(upto).to_multiset().count(card) == if card.color
            != CardColor::Wild && (card.variant matches CardVariant::Number(number) && 1 <= number
            <= upto) {
            generator.numbers as nat
        } else {
            0
        },
    decreases upto,
{
    if upto == 0 {
        let none = generator.numbered_copies(0);
        none.to_multiset_ensures();
        vstd::multiset::axiom_count_le_len(none.to_multiset(), card);
    } else {
        let lower = generator.numbered_copies((upto - 1) as nat);
        let run = colored_copies(CardVariant::Number(upto as u8), generator.numbers as nat);
        lemma_numbered_copies_count(generator, (upto - 1) as nat, card);
        lemma_colored_copies_count(CardVariant::Number(upto as u8), generator.numbers as nat, card);
        lemma_count_concat(lower, run, card);
    }
}

/// The ordered deck holds every card as often as the table of the deck's
/// composition says.
pub proof fn lemma_ordered_deck_composition(generator: DeckGenerator, card: Card)
    ensures
        generator.ordered_deck_spec().to_multiset().count(card) == generator.copies_of(card),
{
    let zeros = colored_copies(CardVariant::Number(0), generator.number0 as nat);
    let numbers = generator.numbered_copies(9);
    let blocks = colored_copies(CardVariant::Block, generator.block as nat);
    let inverts = colored_copies(CardVariant::Invert, generator.invert as nat);
    let plus_twos = colored_copies(CardVariant::PlusTwo, generator.plus_2 as nat);
    let plus_fours = wild_copies(CardVariant::PlusFour, generator.plus_4 as nat);
    let wild_cards = wild_copies(CardVariant::Wild, generator.wild_card as nat);
    lemma_colored_copies_count(CardVariant::Number(0), generator.number0 as nat, card);
    lemma_numbered_copies_count(generator, 9, card);
    lemma_colored_copies_count(CardVariant::Block, generator.block as nat, card);
    lemma_colored_copies_count(CardVariant::Invert, generator.invert as nat, card);
    lemma_colored_copies_count(CardVariant::PlusTwo, generator.plus_2 as nat, card);
    lemma_copies_count(
        Card { color: CardColor::Wild, variant: CardVariant::PlusFour },
        generator.plus_4 as nat,
        card,
    );
    lemma_copies_count(
        Card { color: CardColor::Wild, variant: CardVariant::Wild },
        generator.wild_card as nat,
        card,
    );
    lemma_count_concat(zeros, numbers, card);
    lemma_count_concat(zeros + numbers, blocks, card);
    lemma_count_concat(zeros + numbers + blocks, inverts, card);
    lemma_count_concat(zeros + numbers + blocks + inverts, plus_twos, card);
    lemma_count_concat(zeros + numbers + blocks + inverts + plus_twos, plus_fours, card);
    lemma_count_concat(
        zeros + numbers + blocks + inverts + plus_twos + plus_fours,
        wild_cards,
        card,
    );
}

/// The length of the coloured copies of the numbers from 1 to `upto`.
pub proof fn lemma_numbered_copies_len(generator: DeckGenerator, upto: nat)
    ensures
        generator.numbered_copies(upto).len() == upto * (4 * generator.numbers),
    decreases upto,
{
    let run = 4 * generator.numbers;
    if upto == 0 {
        assert(0 * run == 0) by (nonlinear_arith);
    } else {
        lemma_numbered_copies_len(generator, (upto - 1) as nat);
        assert((upto - 1) * run + run == upto * run) by (nonlinear_arith);
    }
}

/// The ordered deck has as many cards as the table of the deck's composition
/// adds up to.
pub proof fn lemma_ordered_deck_size(generator: DeckGenerator)
    ensures
        generator.ordered_deck_spec().len() == generator.deck_size(),
{
    lemma_numbered_copies_len(generator, 9);
}

/// The standard deck has 108 cards: one 0 and two of each number from 1 to 9
/// and of each action in each of the four colours, four +4 and four wild
/// cards. No other card is in it.
pub proof fn lemma_standard_deck(card: Card)
    ensures
        DeckGenerator::standard().deck_size() == 108,
        DeckGenerator::standard().copies_of(card) == if !card.valid() {
            0nat
        } else if card.variant == CardVariant::Number(0) {
            1
        } else if card.color != CardColor::Wild {
            2
        } else {
            4
        },
{
}

} // verus!
