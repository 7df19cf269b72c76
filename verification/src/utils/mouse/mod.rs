//! The pointer: where it is, what it is over, and what it has clicked.

pub mod click;
pub mod coordinates;
pub mod hover;

pub use crate::utils::interactive::{Clickable, Clicked, Hoverable, Hovered};
pub use coordinates::{MouseCoordinates, UIMouseCoordinates};

use crate::utils::interactive::{IVec2, Interactive};
use crate::utils::mouse::click::{left_button, ButtonState, MouseButtonInput};
use vstd::prelude::*;

verus! {

/// The two tags that open an object to the pointer.
#[derive(Debug, Clone, Copy, PartialEq, Eq, Structural)]
pub struct MouseInteractionBundle {
    pub clickable: Clickable,
    pub hoverable: Hoverable,
}

impl Default for MouseInteractionBundle {
    fn default() -> (bundle: Self)
        ensures
            bundle == (MouseInteractionBundle { clickable: Clickable, hoverable: Hoverable }),
    {
        MouseInteractionBundle { clickable: Clickable, hoverable: Hoverable }
    }
}

impl Interactive {
    /// The object with the tags of `bundle` attached: it is then hoverable
    /// and clickable, and otherwise as before.
    pub fn with_mouse_interaction(self, bundle: MouseInteractionBundle) -> (object: Interactive)
        ensures
            object == (Interactive {
                clickable: Some(bundle.clickable),
                hoverable: Some(bundle.hoverable),
                ..self
            }),
    {
        Interactive {
            clickable: Some(bundle.clickable),
            hoverable: Some(bundle.hoverable),
            ..self
        }
    }
}

/// Hover detection is suspended while an object is clicked: wherever the
/// pointer is, the object stays as it is, hovered or not.
pub proof fn lemma_clicked_keeps_hover(object: Interactive, mouse: IVec2)
    requires
        object.clicked is Some,
    ensures
        object.after_hover(mouse) == object,
{
}

/// A press of the left button clicks an object that is hovered and clickable,
/// in the frame of the press, and changes nothing else of it.
pub proof fn lemma_press_clicks_hovered(object: Interactive, events: Seq<MouseButtonInput>)
    requires
        object.hovered is Some,
        object.clickable is Some,
        left_button(events, ButtonState::Pressed),
    ensures
        object.after_click(events).clicked is Some,
        object.after_click(events) == (Interactive {
            clicked: object.after_click(events).clicked,
            ..object
        }),
{
}

/// No click without hover: whatever the events, an object that is not hovered
/// is left as it is, and so is one that is not clickable. Such an object
/// never becomes clicked.
pub proof fn lemma_click_requires_hover(object: Interactive, events: Seq<MouseButtonInput>)
    requires
        object.hovered is None || object.clickable is None,
    ensures
        object.after_click(events) == object,
{
}

/// A release of the left button ends the click in the frame of the release,
/// whether or not the object is hovered, and changes nothing else of it.
pub proof fn lemma_release_ends_click(object: Interactive, events: Seq<MouseButtonInput>)
    requires
        left_button(events, ButtonState::Released),
    ensures
        object.after_release(events).clicked is None,
        object.after_release(events) == (Interactive { clicked: None, ..object }),
{
}

/// Without a press of the left button nothing becomes clicked, and without a
/// release nothing stops being so.
pub proof fn lemma_no_event_no_change(object: Interactive, events: Seq<MouseButtonInput>)
    ensures
        !left_button(events, ButtonState::Pressed) ==> object.after_click(events) == object,
        !left_button(events, ButtonState::Released) ==> object.after_release(events) == object,
{
}

/// Dragging: an object that was clicked while hovered stays hovered and
/// clicked through any frames without a release, wherever the pointer goes
/// in them, and keeps its hover state in the frame of the release.
pub proof fn lemma_drag_keeps_hover(
    object: Interactive,
    press: Seq<MouseButtonInput>,
    mouse: IVec2,
    events: Seq<MouseButtonInput>,
)
    requires
        object.hovered is Some,
        object.clickable is Some,
        left_button(press, ButtonState::Pressed),
    ensures
        !left_button(events, ButtonState::Released) ==> object.after_click(press).after_hover(
            mouse,
        ).after_click(events).after_release(events) == object.after_click(press),
        object.after_click(press).after_hover(mouse).after_click(events).after_release(
            events,
        ).hovered is Some,
{
}

} // verus!
