//! The objects that the pointer can interact with.
//!
//! An object carries its state as tags: a tag is either attached or not, and
//! holds nothing. `Hoverable` and `Clickable` say what an object can take
//! part in; `Loaded` says that its image has finished loading; `Hovered` and
//! `Clicked` are the state that the pointer puts it in.
//!
//! Positions are in whole units: pixels on the screen, and the units of the
//! world, in which an image's pixel is one unit wide.

use vstd::prelude::*;

verus! {

/// A point, or a displacement, in whole units.
#[derive(Debug, Clone, Copy, PartialEq, Eq, Hash, Structural)]
pub struct IVec2 {
    pub x: i32,
    pub y: i32,
}

impl IVec2 {
    /// The point with these coordinates.
    pub fn new(x: i32, y: i32) -> (point: IVec2)
        ensures
            point == (IVec2 { x, y }),
    {
        IVec2 { x, y }
    }
}

/// The pixel dimensions of an image.
#[derive(Debug, Clone, Copy, PartialEq, Eq, Hash, Structural)]
pub struct ImageSize {
    pub width: u32,
    pub height: u32,
}

/// Tag: the object takes part in hover detection.
#[derive(Debug, Clone, Copy, PartialEq, Eq, Hash, Structural)]
pub struct Hoverable;

impl Default for Hoverable {
    fn default() -> (tag: Self)
        ensures
            tag == Hoverable,
    {
        Hoverable
    }
}

/// Tag: the pointer is over the object.
#[derive(Debug, Clone, Copy, PartialEq, Eq, Hash, Structural)]
pub struct Hovered;

/// Tag: the object takes part in click detection.
#[derive(Debug, Clone, Copy, PartialEq, Eq, Hash, Structural)]
pub struct Clickable;

impl Default for Clickable {
    fn default() -> (tag: Self)
        ensures
            tag == Clickable,
    {
        Clickable
    }
}

/// Tag: the left button went down over the object and has not come up since.
#[derive(Debug, Clone, Copy, PartialEq, Eq, Hash, Structural)]
pub struct Clicked;

/// Tag: the object's image has finished loading.
#[derive(Debug, Clone, Copy, PartialEq, Eq, Hash, Structural)]
pub struct Loaded;

/// One object of the world, as far as the pointer is concerned.
#[derive(Debug, Clone, Copy, PartialEq, Eq, Hash, Structural)]
pub struct Interactive {
    /// Where the object's centre is in the world.
    pub position: IVec2,
    /// The dimensions of the object's image, where the image store has it.
    pub image: Option<ImageSize>,
    pub loaded: Option<Loaded>,
    pub hoverable: Option<Hoverable>,
    pub clickable: Option<Clickable>,
    pub hovered: Option<Hovered>,
    pub clicked: Option<Clicked>,
}

impl Interactive {
    /// The object at `position` that carries no tag and has no image yet.
    pub open spec fn bare(position: IVec2) -> Interactive {
        Interactive {
            position,
            image: None,
            loaded: None,
            hoverable: None,
            clickable: None,
            hovered: None,
            clicked: None,
        }
    }

    /// A new object at `position`, without tags and without an image.
    pub fn new(position: IVec2) -> (object: Interactive)
        ensures
            object == Self::bare(position),
    {
        Interactive {
            position,
            image: None,
            loaded: None,
            hoverable: None,
            clickable: None,
            hovered: None,
            clicked: None,
        }
    }
}

} // verus!
