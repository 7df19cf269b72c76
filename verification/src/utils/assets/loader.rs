//! Following the loading of images, which happens in the background: an
//! object is tagged `Loaded` once its image is there.

use crate::utils::interactive::{Interactive, Loaded};
use vstd::prelude::*;

verus! {

/// How far the loading of an image has come.
#[derive(Debug, Clone, Copy, PartialEq, Eq, Hash, Structural)]
pub enum LoadState {
    /// Loading has not begun.
    NotLoaded,
    /// Loading has begun and has not finished.
    Loading,
    /// The image is there.
    Loaded,
    /// Loading was given up.
    Failed,
}

/// Whether everything has been loaded that is waited for.
#[derive(Debug, Clone, Copy, PartialEq, Eq, Hash, Structural)]
pub enum TestAssetLoadingState {
    Loading,
    Loaded,
}

impl Default for TestAssetLoadingState {
    /// At first nothing has been loaded.
    fn default() -> (state: Self)
        ensures
            state == TestAssetLoadingState::Loading,
    {
        TestAssetLoadingState::Loading
    }
}

impl Interactive {
    /// The object once the load state of its image is known to be `state`:
    /// tagged `Loaded` if the image is there, else unchanged.
    pub open spec fn after_load(self, state: LoadState) -> Interactive {
        if state == LoadState::Loaded {
            Interactive { loaded: Some(Loaded), ..self }
        } else {
            self
        }
    }
}

/// Whether every one of the load states is `Loaded`.
pub open spec fn all_loaded(load_states: Seq<LoadState>) -> bool {
    forall|i: int| 0 <= i < load_states.len() ==> load_states[i] == LoadState::Loaded
}

/// Tags the objects whose image has finished loading. `load_states` holds the
/// load state of each object's image, in the order of the objects; an object
/// for which it holds none is left as it is.
pub fn is_asset_loaded(entities: &mut Vec<Interactive>, load_states: &Vec<LoadState>)
    ensures
        final(entities)@.len() == old(entities)@.len(),
        forall|i: int|
            0 <= i < old(entities)@.len() ==> #[trigger] final(entities)@[i] == if i
                < load_states@.len() {
                old(entities)@[i].after_load(load_states@[i])
            } else {
                old(entities)@[i]
            },
{
    let mut i: usize = 0;
    while i < entities.len() && i < load_states.len()
        invariant
            entities@.len() == old(entities)@.len(),
            forall|j: int|
                0 <= j < i ==> #[trigger] entities@[j] == old(entities)@[j].after_load(
                    load_states@[j],
                ),
            forall|j: int| i <= j < entities@.len() ==> #[trigger] entities@[j] == old(entities)@[j],
            i <= entities@.len(),
            i <= load_states@.len(),
        decreases entities@.len() - i,
    {
        match load_states[i] {
            LoadState::Loaded => {
                let mut entity = entities[i];
                entity.loaded = Some(Loaded);
                entities.set(i, entity);
            },
            _ => {},
        }
        i += 1;
    }
}

/// checks that all images are loaded before setting state
///
/// The state becomes `Loaded` if every one of the load states is `Loaded`,
/// and stays as it is otherwise.
pub fn check_loaded(load_states: &Vec<LoadState>, loading_state: &mut TestAssetLoadingState)
    ensures
        *final(loading_state) == if all_loaded(load_states@) {
            TestAssetLoadingState::Loaded
        } else {
            *old(loading_state)
        },
{
    let mut i: usize = 0;
    while i < load_states.len()
        invariant
            i <= load_states@.len(),
            forall|j: int| 0 <= j < i ==> load_states@[j] == LoadState::Loaded,
            *loading_state == *old(loading_state),
        decreases load_states@.len() - i,
    {
        match load_states[i] {
            LoadState::Loaded => {},
            _ => {
                return ;
            },
        }
        i += 1;
    }
    *loading_state = TestAssetLoadingState::Loaded;
}

} // verus!
