use card_game::game::card::{Card, CardColor, CardVariant, CARD_BACK_PATH};
use std::collections::HashSet;

#[test]
fn texture_path_of_a_number() {
    assert_eq!(
        Card::texture_path(CardColor::Blue, CardVariant::Number(9)),
        "cards/blue/9_blue.png"
    );
}

#[test]
fn texture_path_of_plus_four() {
    assert_eq!(Card::texture_path(CardColor::Wild, CardVariant::PlusFour), "cards/4_plus.png");
}

#[test]
fn texture_path_of_the_wild_card() {
    assert_eq!(Card::texture_path(CardColor::Wild, CardVariant::Wild), "cards/color_change.png");
}

#[test]
fn texture_paths_of_the_coloured_actions() {
    assert_eq!(
        Card::texture_path(CardColor::Yellow, CardVariant::Invert),
        "cards/yellow/inverse_yellow.png"
    );
    assert_eq!(
        Card::texture_path(CardColor::Red, CardVariant::Block),
        "cards/red/block_red.png"
    );
    assert_eq!(
        Card::texture_path(CardColor::Green, CardVariant::PlusTwo),
        "cards/green/2plus_green.png"
    );
    assert_eq!(
        Card::texture_path(CardColor::Green, CardVariant::Number(0)),
        "cards/green/0_green.png"
    );
}

#[test]
fn the_path_goes_by_the_variant_class() {
    // a wild-class variant has no colour segment, whatever colour it is given
    assert_eq!(Card::texture_path(CardColor::Blue, CardVariant::PlusFour), "cards/4_plus.png");
    assert_eq!(Card::texture_path(CardColor::Red, CardVariant::Wild), "cards/color_change.png");
    // every other variant has one
    assert_eq!(
        Card::texture_path(CardColor::Wild, CardVariant::Number(3)),
        "cards/wild/3_wild.png"
    );
}

#[test]
fn a_number_is_named_by_its_numeral() {
    assert_eq!(
        Card::texture_path(CardColor::Red, CardVariant::Number(10)),
        "cards/red/10_red.png"
    );
    assert_eq!(
        Card::texture_path(CardColor::Red, CardVariant::Number(255)),
        "cards/red/255_red.png"
    );
}

#[test]
fn names_of_the_colours() {
    assert_eq!(CardColor::Yellow.name(), "yellow");
    assert_eq!(CardColor::Red.name(), "red");
    assert_eq!(CardColor::Blue.name(), "blue");
    assert_eq!(CardColor::Green.name(), "green");
    assert_eq!(CardColor::Wild.name(), "wild");
    assert_eq!(String::from(CardColor::Blue), "blue");
}

#[test]
fn names_of_the_variants() {
    assert_eq!(String::from(CardVariant::Number(0)), "0");
    assert_eq!(String::from(CardVariant::Number(7)), "7");
    assert_eq!(String::from(CardVariant::Invert), "inverse");
    assert_eq!(String::from(CardVariant::Block), "block");
    assert_eq!(String::from(CardVariant::PlusTwo), "2plus");
    assert_eq!(String::from(CardVariant::PlusFour), "4_plus");
    assert_eq!(String::from(CardVariant::Wild), "color_change");
    let mut out = String::from("x");
    CardVariant::Number(42).push_name(&mut out);
    assert_eq!(out, "x42");
}

#[test]
fn names_of_cards() {
    assert_eq!(
        String::from(Card { color: CardColor::Blue, variant: CardVariant::Number(9) }),
        "9_blue"
    );
    assert_eq!(
        String::from(Card { color: CardColor::Wild, variant: CardVariant::PlusFour }),
        "4_plus"
    );
    assert_eq!(
        String::from(Card { color: CardColor::Wild, variant: CardVariant::Wild }),
        "color_change"
    );
}

#[test]
fn wild_class() {
    assert!(CardVariant::PlusFour.is_wild_class());
    assert!(CardVariant::Wild.is_wild_class());
    assert!(!CardVariant::PlusTwo.is_wild_class());
    assert!(!CardVariant::Block.is_wild_class());
    assert!(!CardVariant::Invert.is_wild_class());
    assert!(!CardVariant::Number(4).is_wild_class());
}

#[test]
fn validity_of_cards() {
    assert!(Card { color: CardColor::Blue, variant: CardVariant::Number(9) }.is_valid());
    assert!(Card { color: CardColor::Red, variant: CardVariant::Number(0) }.is_valid());
    assert!(Card { color: CardColor::Green, variant: CardVariant::PlusTwo }.is_valid());
    assert!(Card { color: CardColor::Wild, variant: CardVariant::PlusFour }.is_valid());
    assert!(Card { color: CardColor::Wild, variant: CardVariant::Wild }.is_valid());
    assert!(!Card { color: CardColor::Blue, variant: CardVariant::Number(10) }.is_valid());
    assert!(!Card { color: CardColor::Wild, variant: CardVariant::Number(1) }.is_valid());
    assert!(!Card { color: CardColor::Wild, variant: CardVariant::Block }.is_valid());
    assert!(!Card { color: CardColor::Yellow, variant: CardVariant::PlusFour }.is_valid());
    assert!(!Card { color: CardColor::Yellow, variant: CardVariant::Wild }.is_valid());
}

#[test]
fn all_colours_and_coloured_variants() {
    assert_eq!(
        CardColor::all_variations(),
        vec![CardColor::Yellow, CardColor::Red, CardColor::Blue, CardColor::Green]
    );
    let variants = CardVariant::colored_variations();
    assert_eq!(variants.len(), 13);
    assert_eq!(variants[0], CardVariant::Invert);
    assert_eq!(variants[1], CardVariant::Block);
    assert_eq!(variants[2], CardVariant::PlusTwo);
    for number in 0u8..10 {
        assert_eq!(variants[3 + number as usize], CardVariant::Number(number));
    }
}

#[test]
fn all_variations_lists_every_card_once() {
    let cards = Card::all_variations();
    assert_eq!(cards.len(), 54);
    assert_eq!(cards[0], Card { color: CardColor::Yellow, variant: CardVariant::Invert });
    assert_eq!(cards[1], Card { color: CardColor::Red, variant: CardVariant::Invert });
    assert_eq!(cards[4], Card { color: CardColor::Yellow, variant: CardVariant::Block });
    assert_eq!(cards[12], Card { color: CardColor::Yellow, variant: CardVariant::Number(0) });
    assert_eq!(cards[51], Card { color: CardColor::Green, variant: CardVariant::Number(9) });
    assert_eq!(cards[52], Card { color: CardColor::Wild, variant: CardVariant::PlusFour });
    assert_eq!(cards[53], Card { color: CardColor::Wild, variant: CardVariant::Wild });

    let distinct: HashSet<Card> = cards.iter().copied().collect();
    assert_eq!(distinct.len(), 54);
    assert!(cards.iter().all(|card| card.is_valid()));

    // and every card that exists is in the list
    let colors =
        [CardColor::Yellow, CardColor::Red, CardColor::Blue, CardColor::Green, CardColor::Wild];
    let mut variants = vec![
        CardVariant::Invert,
        CardVariant::Block,
        CardVariant::PlusTwo,
        CardVariant::PlusFour,
        CardVariant::Wild,
    ];
    for number in 0u8..=255 {
        variants.push(CardVariant::Number(number));
    }
    for color in colors {
        for variant in variants.iter().copied() {
            let card = Card { color, variant };
            assert_eq!(distinct.contains(&card), card.is_valid());
        }
    }
}

#[test]
fn all_textures_are_distinct_but_for_nothing() {
    let paths: HashSet<String> = Card::all_variations()
        .into_iter()
        .map(|card| Card::texture_path(card.color, card.variant))
        .collect();
    assert_eq!(paths.len(), 54);
    assert!(!paths.contains(CARD_BACK_PATH));
    assert_eq!(CARD_BACK_PATH, "cards/card_back.png");
}
