//! Card identity: colour and variant, and the texture each card is drawn with.
//!
//! Textures follow one naming scheme. A coloured card is drawn with
//! `cards/{color}/{variant}_{color}.png`; the two wild-class variants have a
//! single texture each, `cards/{variant}.png`, whatever colour they carry.

use crate::utils::text::{decimal, push_decimal};
use vstd::prelude::*;
use vstd::string::StringExecFns;

verus! {

/// Texture of the back of a card.
pub const CARD_BACK_PATH: &'static str = "cards/card_back.png";

/// The colour of a card. `Wild` is the colour of the cards that belong to no
/// colour.
#[derive(Debug, Clone, Copy, PartialEq, Eq, Hash, Structural)]
pub enum CardColor {
    Yellow,
    Red,
    Blue,
    Green,
    Wild,
}

impl CardColor {
    /// The colour's name as it appears in texture paths.
    pub open spec fn name_spec(self) -> Seq<char> {
        match self {
            CardColor::Yellow => "yellow"@,
            CardColor::Red => "red"@,
            CardColor::Blue => "blue"@,
            CardColor::Green => "green"@,
            CardColor::Wild => "wild"@,
        }
    }

    /// The four colours a coloured card can have, in the order in which
    /// [`Card::all_variations`] walks them.
    pub open spec fn all_variations_spec() -> Seq<CardColor> {
        seq![CardColor::Yellow, CardColor::Red, CardColor::Blue, CardColor::Green]
    }

    /// The colour's name as it appears in texture paths.
    pub fn name(self) -> (name: &'static str)
        ensures
            name@ == self.name_spec(),
    {
        match self {
            CardColor::Yellow => "yellow",
            CardColor::Red => "red",
            CardColor::Blue => "blue",
            CardColor::Green => "green",
            CardColor::Wild => "wild",
        }
    }

    /// The four colours a coloured card can have.
    pub fn all_variations() -> (colors: Vec<CardColor>)
        ensures
            colors@ == Self::all_variations_spec(),
    {
        let mut colors = Vec::new();
        colors.push(CardColor::Yellow);
        colors.push(CardColor::Red);
        colors.push(CardColor::Blue);
        colors.push(CardColor::Green);
        assert(colors@ =~= Self::all_variations_spec());
        colors
    }
}

impl From<CardColor> for String {
    /// The colour's name as an owned string.
    fn from(card_color: CardColor) -> (name: String)
        ensures
            name@ == card_color.name_spec(),
    {
        String::from_str(card_color.name())
    }
}

/// A string is known by its characters only, so the conversion is stated on
/// the view, in the `ensures` of `from`, and not as a value.
impl vstd::std_specs::convert::FromSpecImpl<CardColor> for String {
    open spec fn obeys_from_spec() -> bool {
        false
    }

    open spec fn from_spec(card_color: CardColor) -> String {
        arbitrary()
    }
}

/// The rank or action of a card, whatever its colour.
#[derive(Debug, Clone, Copy, PartialEq, Eq, Hash, Structural)]
pub enum CardVariant {
    /// A number card; the digit is between 0 and 9.
    Number(u8),
    Invert,
    Block,
    PlusTwo,
    PlusFour,
    Wild,
}

impl CardVariant {
    /// The wild-class variants are those that belong to no colour.
    pub open spec fn is_wild_class_spec(self) -> bool {
        self is PlusFour || self is Wild
    }

    /// The variant's name as it appears in texture paths. A number is named
    /// by its decimal numeral.
    pub open spec fn name_spec(self) -> Seq<char> {
        match self {
            CardVariant::Number(number) => decimal(number as nat),
            CardVariant::Invert => "inverse"@,
            CardVariant::Block => "block"@,
            CardVariant::PlusTwo => "2plus"@,
            CardVariant::PlusFour => "4_plus"@,
            CardVariant::Wild => "color_change"@,
        }
    }

    /// The variants a coloured card can have, in the order in which
    /// [`Card::all_variations`] walks them: the three actions, then the
    /// numbers from 0 to 9.
    pub open spec fn colored_variations_spec() -> Seq<CardVariant> {
        Seq::new(
            13,
            |i: int|
                if i == 0 {
                    CardVariant::Invert
                } else if i == 1 {
                    CardVariant::Block
                } else if i == 2 {
                    CardVariant::PlusTwo
                } else {
                    CardVariant::Number((i - 3) as u8)
                },
        )
    }

    /// Whether the variant is one of the two that belong to no colour.
    #[verifier::when_used_as_spec(is_wild_class_spec)]
    pub fn is_wild_class(self) -> (wild: bool)
        ensures
            wild == self.is_wild_class_spec(),
    {
        match self {
            CardVariant::PlusFour | CardVariant::Wild => true,
            _ => false,
        }
    }

    /// Appends the variant's name to `out`.
    pub fn push_name(self, out: &mut String)
        ensures
            final(out)@ == old(out)@ + self.name_spec(),
    {
        match self {
            CardVariant::Number(number) => push_decimal(out, number as u64),
            CardVariant::Invert => out.append("inverse"),
            CardVariant::Block => out.append("block"),
            CardVariant::PlusTwo => out.append("2plus"),
            CardVariant::PlusFour => out.append("4_plus"),
            CardVariant::Wild => out.append("color_change"),
        }
    }

    /// The variants a coloured card can have.
    pub fn colored_variations() -> (variants: Vec<CardVariant>)
        ensures
            variants@ == Self::colored_variations_spec(),
    {
        let mut variants = Vec::new();
        variants.push(CardVariant::Invert);
        variants.push(CardVariant::Block);
        variants.push(CardVariant::PlusTwo);
        let mut number: u8 = 0;
        while number < 10
            invariant
                number <= 10,
                variants@.len() == 3 + number,
                forall|i: int|
                    0 <= i < variants@.len() ==> variants@[i]
                        == Self::colored_variations_spec()[i],
            decreases 10 - number,
        {
            variants.push(CardVariant::Number(number));
            number += 1;
        }
        assert(variants@ =~= Self::colored_variations_spec());
        variants
    }
}

impl From<CardVariant> for String {
    /// The variant's name as an owned string.
    fn from(card_variant: CardVariant) -> (name: String)
        ensures
            name@ == card_variant.name_spec(),
    {
        let mut name = String::new();
        card_variant.push_name(&mut name);
        assert(name@ =~= card_variant.name_spec());
        name
    }
}

/// Stated on the view, as for [`CardColor`].
impl vstd::std_specs::convert::FromSpecImpl<CardVariant> for String {
    open spec fn obeys_from_spec() -> bool {
        false
    }

    open spec fn from_spec(card_variant: CardVariant) -> String {
        arbitrary()
    }
}

/// A card: a colour and a variant.
#[derive(Debug, Clone, Copy, PartialEq, Eq, Hash, Structural)]
pub struct Card {
    pub color: CardColor,
    pub variant: CardVariant,
}

impl Card {
    /// The cards that exist in the game: a wild-class variant carries the
    /// colour `Wild`, every other variant one of the four proper colours, and
    /// a number is a single digit.
    pub open spec fn valid(self) -> bool {
        match self.variant {
            CardVariant::Number(number) => number <= 9 && self.color != CardColor::Wild,
            CardVariant::Invert | CardVariant::Block | CardVariant::PlusTwo => self.color
                != CardColor::Wild,
            CardVariant::PlusFour | CardVariant::Wild => self.color == CardColor::Wild,
        }
    }

    /// The texture path of the card with this colour and variant.
    pub open spec fn texture_path_spec(color: CardColor, variant: CardVariant) -> Seq<char> {
        if variant.is_wild_class_spec() {
            "cards/"@ + variant.name_spec() + ".png"@
        } else {
            "cards/"@ + color.name_spec() + "/"@ + variant.name_spec() + "_"@ + color.name_spec()
                + ".png"@
        }
    }

    /// Every card that exists, once: for each coloured variant its four
    /// colours, then the two wild cards.
    pub open spec fn all_variations_spec() -> Seq<Card> {
        Seq::new(
            54,
            |i: int|
                if i < 52 {
                    Card {
                        color: CardColor::all_variations_spec()[i % 4],
                        variant: CardVariant::colored_variations_spec()[i / 4],
                    }
                } else if i == 52 {
                    Card { color: CardColor::Wild, variant: CardVariant::PlusFour }
                } else {
                    Card { color: CardColor::Wild, variant: CardVariant::Wild }
                },
        )
    }

    /// Where a valid card stands in [`Card::all_variations_spec`].
    pub open spec fn variation_index(self) -> int {
        let color_index = match self.color {
            CardColor::Yellow => 0int,
            CardColor::Red => 1,
            CardColor::Blue => 2,
            _ => 3,
        };
        match self.variant {
            CardVariant::Invert => color_index,
            CardVariant::Block => 4 + color_index,
            CardVariant::PlusTwo => 8 + color_index,
            CardVariant::Number(number) => 4 * (3 + number) + color_index,
            CardVariant::PlusFour => 52,
            CardVariant::Wild => 53,
        }
    }

    /// Whether the card is one that exists in the game.
    #[verifier::when_used_as_spec(valid)]
    pub fn is_valid(self) -> (valid: bool)
        ensures
            valid == self.valid(),
    {
        let colored = match self.color {
            CardColor::Wild => false,
            _ => true,
        };
        match self.variant {
            CardVariant::Number(number) => number <= 9 && colored,
            CardVariant::Invert | CardVariant::Block | CardVariant::PlusTwo => colored,
            CardVariant::PlusFour | CardVariant::Wild => !colored,
        }
    }

    /// The path of the texture that the card with this colour and variant is
    /// drawn with. The shape of the path goes by the variant alone: a
    /// wild-class variant has no colour segment.
    pub fn texture_path(color: CardColor, variant: CardVariant) -> (path: String)
        ensures
            path@ == Self::texture_path_spec(color, variant),
    {
        let mut path = String::from_str("cards/");
        if variant.is_wild_class() {
            variant.push_name(&mut path);
        } else {
            path.append(color.name());
            path.append("/");
            variant.push_name(&mut path);
            path.append("_");
            path.append(color.name());
        }
        path.append(".png");
        assert(path@ =~= Self::texture_path_spec(color, variant));
        path
    }

    /// A list of every card that exists, each once.
    ///
    /// Possible usage: the list of all the card textures to load.
    pub fn all_variations() -> (cards: Vec<Card>)
        ensures
            cards@ == Self::all_variations_spec(),
    {
        let colors = CardColor::all_variations();
        let colored_variants = CardVariant::colored_variations();
        let mut cards: Vec<Card> = Vec::new();
        let mut v: usize = 0;
        while v < colored_variants.len()
            invariant
                colors@ == CardColor::all_variations_spec(),
                colored_variants@ == CardVariant::colored_variations_spec(),
                v <= 13,
                cards@.len() == 4 * v,
                forall|i: int|
                    0 <= i < cards@.len() ==> cards@[i] == Self::all_variations_spec()[i],
            decreases 13 - v,
        {
            let mut c: usize = 0;
            while c < colors.len()
                invariant
                    colors@ == CardColor::all_variations_spec(),
                    colored_variants@ == CardVariant::colored_variations_spec(),
                    v < 13,
                    c <= 4,
                    cards@.len() == 4 * v + c,
                    forall|i: int|
                        0 <= i < cards@.len() ==> cards@[i] == Self::all_variations_spec()[i],
                decreases 4 - c,
            {
                cards.push(Card { color: colors[c], variant: colored_variants[v] });
                c += 1;
            }
            v += 1;
        }
        cards.push(Card { color: CardColor::Wild, variant: CardVariant::PlusFour });
        cards.push(Card { color: CardColor::Wild, variant: CardVariant::Wild });
        assert(cards@ =~= Self::all_variations_spec());
        cards
    }
}

/// A card's textual identity is its texture's file stem:
/// `{variant}_{color}` for a coloured variant, `{variant}` for a wild-class
/// one.
impl From<Card> for String {
    fn from(card: Card) -> (name: String)
        ensures
            name@ == if card.variant.is_wild_class_spec() {
                card.variant.name_spec()
            } else {
                card.variant.name_spec() + "_"@ + card.color.name_spec()
            },
    {
        let mut name = String::new();
        card.variant.push_name(&mut name);
        if !card.variant.is_wild_class() {
            name.append("_");
            name.append(card.color.name());
        }
        assert(name@ =~= if card.variant.is_wild_class_spec() {
            card.variant.name_spec()
        } else {
            card.variant.name_spec() + "_"@ + card.color.name_spec()
        });
        name
    }
}

/// Stated on the view, as for [`CardColor`].
impl vstd::std_specs::convert::FromSpecImpl<Card> for String {
    open spec fn obeys_from_spec() -> bool {
        false
    }

    open spec fn from_spec(card: Card) -> String {
        arbitrary()
    }
}

/// Every card that exists stands in [`Card::all_variations_spec`], at its
/// [`Card::variation_index`].
pub proof fn lemma_all_variations_complete(card: Card)
    requires
        card.valid(),
    ensures
        0 <= card.variation_index() < 54,
        Card::all_variations_spec()[card.variation_index()] == card,
        Card::all_variations_spec().contains(card),
{
    let i = card.variation_index();
    assert(Card::all_variations_spec()[i] == card);
}

/// Every entry of [`Card::all_variations_spec`] is a card that exists, and it
/// stands nowhere else in the list: the list has no other cards and no
/// duplicates.
pub proof fn lemma_all_variations_sound()
    ensures
        Card::all_variations_spec().len() == 54,
        forall|i: int|
            0 <= i < 54 ==> (#[trigger] Card::all_variations_spec()[i]).valid()
                && Card::all_variations_spec()[i].variation_index() == i,
        Card::all_variations_spec().no_duplicates(),
        forall|card: Card| Card::all_variations_spec().contains(card) <==> card.valid(),
{
    let all = Card::all_variations_spec();
    assert forall|i: int| 0 <= i < 54 implies (#[trigger] all[i]).valid()
        && all[i].variation_index() == i by {
        if i < 52 {
            let v = i / 4;
            let c = i % 4;
            assert(all[i].color == CardColor::all_variations_spec()[c]);
            assert(all[i].variant == CardVariant::colored_variations_spec()[v]);
        }
    }
    assert forall|card: Card| all.contains(card) <==> card.valid() by {
        if card.valid() {
            lemma_all_variations_complete(card);
        }
        if all.contains(card) {
            let i = choose|i: int| 0 <= i < all.len() && all[i] == card;
            assert(all[i].valid());
        }
    }
}

} // verus!
