//! Hover detection: which objects the pointer is over.

use crate::utils::interactive::{Hovered, IVec2, ImageSize, Interactive};
use crate::utils::mouse::coordinates::MouseCoordinates;
use vstd::prelude::*;

verus! {

/// Whether `point` lies in the box of an image of dimensions `image` centred
/// at `center`. The box reaches half the image's width to the left and to the
/// right of the centre and half its height above and below, borders
/// included; it does not turn with the object. The comparison is made on
/// doubled values, so that an odd dimension keeps its half unit.
pub open spec fn within_bounds(center: IVec2, image: ImageSize, point: IVec2) -> bool {
    &&& 2 * center.x - image.width <= 2 * point.x <= 2 * center.x + image.width
    &&& 2 * center.y - image.height <= 2 * point.y <= 2 * center.y + image.height
}

/// Whether `point` lies in the box of an image of dimensions `image` centred
/// at `center`.
pub fn is_within_bounds(center: IVec2, image: ImageSize, point: IVec2) -> (within: bool)
    ensures
        within == within_bounds(center, image, point),
{
    let half_width: i64 = image.width as i64;
    let half_height: i64 = image.height as i64;
    let center_x: i64 = 2 * (center.x as i64);
    let center_y: i64 = 2 * (center.y as i64);
    let x: i64 = 2 * (point.x as i64);
    let y: i64 = 2 * (point.y as i64);

    let min_x = center_x - half_width;
    let max_x = center_x + half_width;
    let min_y = center_y - half_height;
    let max_y = center_y + half_height;

    x >= min_x && x <= max_x && y >= min_y && y <= max_y
}

impl Interactive {
    /// Whether hover detection looks at the object: it is hoverable, its
    /// image has finished loading, so that its dimensions are known, and it
    /// is not clicked. While an object is clicked its hover state is left
    /// alone.
    pub open spec fn tracks_hover(self) -> bool {
        self.hoverable is Some && self.loaded is Some && self.image is Some && self.clicked is None
    }

    /// The object after one round of hover detection with the pointer at
    /// `mouse`: where detection looks at it, it is hovered exactly if the
    /// pointer is in its box; otherwise it is unchanged.
    pub open spec fn after_hover(self, mouse: IVec2) -> Interactive {
        if self.tracks_hover() {
            Interactive {
                hovered: if within_bounds(self.position, self.image->0, mouse) {
                    Some(Hovered)
                } else {
                    None
                },
                ..self
            }
        } else {
            self
        }
    }

    /// One round of hover detection on this object, with the pointer at
    /// `mouse`.
    pub fn hover(self, mouse: IVec2) -> (next: Interactive)
        ensures
            next == self.after_hover(mouse),
            self.clicked is Some ==> next.hovered == self.hovered,
    {
        if self.hoverable.is_none() || self.loaded.is_none() || self.clicked.is_some() {
            return self;
        }
        match self.image {
            Some(image) => {
                let mut next = self;
                if is_within_bounds(self.position, image, mouse) {
                    next.hovered = Some(Hovered);
                } else {
                    next.hovered = None;
                }
                next
            },
            None => self,
        }
    }
}

/// One round of hover detection over all objects, with the pointer at
/// `mouse` in the world: every object is put through [`Interactive::hover`].
/// An object that is clicked keeps its hover state, wherever the pointer is.
pub fn is_hovered(entities: &mut Vec<Interactive>, mouse: &MouseCoordinates)
    ensures
        final(entities)@.len() == old(entities)@.len(),
        forall|i: int|
            0 <= i < old(entities)@.len() ==> #[trigger] final(entities)@[i] == old(
                entities,
            )@[i].after_hover(mouse.0),
        forall|i: int|
            0 <= i < old(entities)@.len() && old(entities)@[i].clicked is Some
                ==> #[trigger] final(entities)@[i] == old(entities)@[i],
{
    let mut i: usize = 0;
    while i < entities.len()
        invariant
            i <= entities@.len(),
            entities@.len() == old(entities)@.len(),
            forall|j: int|
                0 <= j < i ==> #[trigger] entities@[j] == old(entities)@[j].after_hover(mouse.0),
            forall|j: int| i <= j < entities@.len() ==> #[trigger] entities@[j] == old(entities)@[j],
        decreases entities@.len() - i,
    {
        let next = entities[i].hover(mouse.0);
        entities.set(i, next);
        i += 1;
    }
}

} // verus!
