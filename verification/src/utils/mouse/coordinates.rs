//! Where the pointer is: on the screen, and in the world.
//!
//! Both positions hold the last known value. They change only in a frame in
//! which the pointer moved and a position could be read; in any other frame
//! they stay as they are.

use crate::utils::interactive::IVec2;
use vstd::prelude::*;

verus! {

/// The pointer's position in the world, in whole units.
#[derive(Debug, Clone, Copy, PartialEq, Eq, Structural)]
pub struct MouseCoordinates(pub IVec2);

/// The pointer's position on the screen, in whole pixels from the window's
/// corner.
#[derive(Debug, Clone, Copy, PartialEq, Eq, Structural)]
pub struct UIMouseCoordinates(pub IVec2);

impl Default for MouseCoordinates {
    /// The origin.
    fn default() -> (coordinates: Self)
        ensures
            coordinates == MouseCoordinates(IVec2 { x: 0, y: 0 }),
    {
        MouseCoordinates(IVec2 { x: 0, y: 0 })
    }
}

impl Default for UIMouseCoordinates {
    /// The origin.
    fn default() -> (coordinates: Self)
        ensures
            coordinates == UIMouseCoordinates(IVec2 { x: 0, y: 0 }),
    {
        UIMouseCoordinates(IVec2 { x: 0, y: 0 })
    }
}

/// What a source of pointer positions gives when it is asked in a frame. The
/// source of screen positions is the window; the source of world positions is
/// the camera, which places the screen position in the world.
#[derive(Debug, Clone, Copy, PartialEq, Eq, Structural)]
pub enum Reading {
    /// There is no such source: no window, or no camera.
    Unavailable,
    /// The source has no position to give: the cursor is outside the window,
    /// or the camera cannot place it.
    Nowhere,
    /// The pointer's position.
    At(IVec2),
}

/// Why a pointer position could not be brought up to date.
#[derive(Debug, Clone, Copy, PartialEq, Eq, Structural)]
pub enum PointerError {
    /// The pointer moved, and there is no window to read the cursor from.
    MissingWindow,
    /// The pointer moved, and there is no camera to place it in the world.
    MissingCamera,
}

/// The position after a frame with `motion_events` pointer motions in which
/// the source gave `reading`: the reading's position if the pointer moved and
/// there is one, else the position before.
pub open spec fn latest(before: IVec2, motion_events: nat, reading: Reading) -> IVec2 {
    if motion_events > 0 && reading is At {
        reading->At_0
    } else {
        before
    }
}

/// Whether a frame asks for a source that is not there: the source is asked
/// only when the pointer moved.
pub open spec fn source_missing(motion_events: nat, reading: Reading) -> bool {
    motion_events > 0 && reading is Unavailable
}

/// Brings the pointer's screen position up to date after a frame with
/// `motion_events` pointer motions, in which the window gave `cursor`.
///
/// Fails exactly if the pointer moved and there is no window; the position
/// is then left as it was.
pub fn update_ui_coordinates(
    ui_mouse_coordinates: &mut UIMouseCoordinates,
    motion_events: usize,
    cursor: Reading,
) -> (result: Result<(), PointerError>)
    ensures
        final(ui_mouse_coordinates).0 == latest(
            old(ui_mouse_coordinates).0,
            motion_events as nat,
            cursor,
        ),
        source_missing(motion_events as nat, cursor) ==> result == Err::<(), PointerError>(
            PointerError::MissingWindow,
        ),
        !source_missing(motion_events as nat, cursor) ==> result is Ok,
{
    if motion_events == 0 {
        return Ok(());
    }
    match cursor {
        Reading::Unavailable => Err(PointerError::MissingWindow),
        Reading::Nowhere => Ok(()),
        Reading::At(coordinates) => {
            ui_mouse_coordinates.0 = coordinates;
            Ok(())
        },
    }
}

/// Brings the pointer's world position up to date after a frame with
/// `motion_events` pointer motions, in which the camera placed the pointer's
/// screen position at `world`.
///
/// Fails exactly if the pointer moved and there is no camera; the position
/// is then left as it was.
pub fn update_coordinates(
    mouse_coordinates: &mut MouseCoordinates,
    motion_events: usize,
    world: Reading,
) -> (result: Result<(), PointerError>)
    ensures
        final(mouse_coordinates).0 == latest(old(mouse_coordinates).0, motion_events as nat, world),
        source_missing(motion_events as nat, world) ==> result == Err::<(), PointerError>(
            PointerError::MissingCamera,
        ),
        !source_missing(motion_events as nat, world) ==> result is Ok,
{
    if motion_events == 0 {
        return Ok(());
    }
    match world {
        Reading::Unavailable => Err(PointerError::MissingCamera),
        Reading::Nowhere => Ok(()),
        Reading::At(coordinates) => {
            mouse_coordinates.0 = coordinates;
            Ok(())
        },
    }
}

} // verus!
