//! Shuffling, which is left to the `rand` crate. What this library relies on
//! is that a shuffle rearranges: it neither adds, drops nor alters a card.

use crate::game::card::Card;
use rand::rngs::ThreadRng;
use rand::seq::SliceRandom;
use vstd::prelude::*;

verus! {

/// `rand::rngs::ThreadRng`, a handle to the calling thread's random number
/// generator. Nothing is known of its state.
#[verifier::external_type_specification]
#[verifier::external_body]
pub struct ExThreadRng(rand::rngs::ThreadRng);

/// `rand::thread_rng` hands out the calling thread's generator, which `rand`
/// seeds from the operating system on first use. Nothing is claimed of the
/// generator. (`rand` gives up with a panic if the operating system cannot
/// provide a seed.)
pub assume_specification[ rand::thread_rng ]() -> (rng: rand::rngs::ThreadRng)
;

/// `rand::seq::SliceRandom::shuffle` on the cards of `cards`. It shuffles
/// the slice in place by a sequence of swaps, so that the cards afterwards
/// are the cards before, each as often as before, in an order that depends on
/// the generator.
#[verifier::external_body]
fn shuffle_with(cards: &mut Vec<Card>, rng: &mut ThreadRng)
    ensures
        final(cards)@.to_multiset() == old(cards)@.to_multiset(),
{
    cards.shuffle(rng);
}

/// Shuffles `cards` in place with the calling thread's random number
/// generator. The result is a permutation of the cards given: the same cards,
/// each as often as before, and so as many.
pub fn shuffle(cards: &mut Vec<Card>)
    ensures
        final(cards)@.to_multiset() == old(cards)@.to_multiset(),
        final(cards)@.len() == old(cards)@.len(),
{
    let mut rng = rand::thread_rng();
    shuffle_with(cards, &mut rng);
    proof {
        cards@.to_multiset_ensures();
        old(cards)@.to_multiset_ensures();
    }
}

} // verus!
