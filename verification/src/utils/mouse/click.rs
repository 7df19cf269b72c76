//! Click detection: which objects the left button holds.

use crate::utils::interactive::{Clicked, Interactive};
use vstd::prelude::*;

verus! {

/// A button of the mouse.
#[derive(Debug, Clone, Copy, PartialEq, Eq, Hash, Structural)]
pub enum MouseButton {
    Left,
    Right,
    Middle,
    Back,
    Forward,
    Other(u16),
}

/// What happened to a button.
#[derive(Debug, Clone, Copy, PartialEq, Eq, Hash, Structural)]
pub enum ButtonState {
    Pressed,
    Released,
}

impl ButtonState {
    /// Whether the button went down.
    pub fn is_pressed(&self) -> (pressed: bool)
        ensures
            pressed == (*self == ButtonState::Pressed),
    {
        match self {
            ButtonState::Pressed => true,
            ButtonState::Released => false,
        }
    }
}

/// A button going down or coming up, reported once when it happens.
#[derive(Debug, Clone, Copy, PartialEq, Eq, Hash, Structural)]
pub struct MouseButtonInput {
    pub button: MouseButton,
    pub state: ButtonState,
}

impl MouseButtonInput {
    /// Whether the event is this change of the left button.
    pub open spec fn is_left(self, state: ButtonState) -> bool {
        self.button == MouseButton::Left && self.state == state
    }
}

/// Whether the events hold this change of the left button.
pub open spec fn left_button(events: Seq<MouseButtonInput>, state: ButtonState) -> bool {
    exists|i: int| 0 <= i < events.len() && (#[trigger] events[i]).is_left(state)
}

/// Whether the events hold this change of the left button.
pub fn has_left_button(events: &Vec<MouseButtonInput>, state: ButtonState) -> (found: bool)
    ensures
        found == left_button(events@, state),
{
    let mut i: usize = 0;
    while i < events.len()
        invariant
            i <= events@.len(),
            forall|j: int| 0 <= j < i ==> !(#[trigger] events@[j]).is_left(state),
        decreases events@.len() - i,
    {
        let event = events[i];
        if event.button == MouseButton::Left && event.state == state {
            return true;
        }
        i += 1;
    }
    false
}

impl Interactive {
    /// The object after the press events of a frame: it is clicked if it is
    /// hovered and clickable and the left button went down; otherwise it is
    /// unchanged.
    pub open spec fn after_click(self, events: Seq<MouseButtonInput>) -> Interactive {
        if left_button(events, ButtonState::Pressed) && self.hovered is Some && self.clickable
            is Some {
            Interactive { clicked: Some(Clicked), ..self }
        } else {
            self
        }
    }

    /// The object after the release events of a frame: it is no longer
    /// clicked if the left button came up, wherever the pointer is; otherwise
    /// it is unchanged.
    pub open spec fn after_release(self, events: Seq<MouseButtonInput>) -> Interactive {
        if left_button(events, ButtonState::Released) {
            Interactive { clicked: None, ..self }
        } else {
            self
        }
    }
}

/// Get Clickable objects that are hovered and add Clicked if left mouse press event is registered
///
/// Every object that is hovered and clickable becomes clicked together, in
/// the frame of the press. An object that is not hovered, or not clickable,
/// is left as it is, whatever the events.
pub fn is_clicked(entities: &mut Vec<Interactive>, events: &Vec<MouseButtonInput>)
    ensures
        final(entities)@.len() == old(entities)@.len(),
        forall|i: int|
            0 <= i < old(entities)@.len() ==> #[trigger] final(entities)@[i] == old(
                entities,
            )@[i].after_click(events@),
        forall|i: int|
            0 <= i < old(entities)@.len() && left_button(events@, ButtonState::Pressed) && old(
                entities,
            )@[i].hovered is Some && old(entities)@[i].clickable is Some
                ==> (#[trigger] final(entities)@[i]).clicked is Some,
        forall|i: int|
            0 <= i < old(entities)@.len() && (old(entities)@[i].hovered is None || old(
                entities,
            )@[i].clickable is None) ==> #[trigger] final(entities)@[i] == old(entities)@[i],
{
    if !has_left_button(events, ButtonState::Pressed) {
        return ;
    }
    let mut i: usize = 0;
    while i < entities.len()
        invariant
            i <= entities@.len(),
            entities@.len() == old(entities)@.len(),
            left_button(events@, ButtonState::Pressed),
            forall|j: int|
                0 <= j < i ==> #[trigger] entities@[j] == old(entities)@[j].after_click(events@),
            forall|j: int| i <= j < entities@.len() ==> #[trigger] entities@[j] == old(entities)@[j],
        decreases entities@.len() - i,
    {
        let mut entity = entities[i];
        if entity.hovered.is_some() && entity.clickable.is_some() {
            entity.clicked = Some(Clicked);
            entities.set(i, entity);
        }
        i += 1;
    }
}

/// Get Clicked objects and remove Clicked if left mouse release event is registered
///
/// Every clicked object is released together, in the frame of the release
/// and whether or not the pointer is still over it.
pub fn is_released(entities: &mut Vec<Interactive>, events: &Vec<MouseButtonInput>)
    ensures
        final(entities)@.len() == old(entities)@.len(),
        forall|i: int|
            0 <= i < old(entities)@.len() ==> #[trigger] final(entities)@[i] == old(
                entities,
            )@[i].after_release(events@),
        forall|i: int|
            0 <= i < old(entities)@.len() && left_button(events@, ButtonState::Released)
                ==> (#[trigger] final(entities)@[i]).clicked is None,
        forall|i: int|
            0 <= i < old(entities)@.len() ==> (#[trigger] final(entities)@[i]).hovered == old(
                entities,
            )@[i].hovered,
{
    if !has_left_button(events, ButtonState::Released) {
        return ;
    }
    let mut i: usize = 0;
    while i < entities.len()
        invariant
            i <= entities@.len(),
            entities@.len() == old(entities)@.len(),
            left_button(events@, ButtonState::Released),
            forall|j: int|
                0 <= j < i ==> #[trigger] entities@[j] == old(entities)@[j].after_release(events@),
            forall|j: int| i <= j < entities@.len() ==> #[trigger] entities@[j] == old(entities)@[j],
        decreases entities@.len() - i,
    {
        let mut entity = entities[i];
        entity.clicked = None;
        entities.set(i, entity);
        i += 1;
    }
}

} // verus!
