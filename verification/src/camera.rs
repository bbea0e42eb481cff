//! The decision core of viewpoint control: which way and how fast the
//! viewpoint moves for a given set of pressed actions. Reading input devices
//! and integrating the motion over frame time belong to the host.

use vstd::prelude::*;

use crate::IVec2;

verus! {

/// Marker for the entity whose position streaming decisions are centered on.
#[derive(Clone, Copy, PartialEq, Eq, Structural, Debug)]
pub struct CameraFocus {}

/// The actions that drive the camera.
#[derive(Clone, Copy, PartialEq, Eq, Structural, Hash, Debug)]
pub enum CameraAction {
    ZoomIn,
    ZoomOut,
    Move,
    Superspeed,
    Up,
    Down,
    Left,
    Right,
}

/// Base camera speed, in world units per second.
pub const CAMERA_SPEED: u32 = 200;

/// Factor applied to the base speed while the superspeed action is held.
pub const SUPERSPEED_MULTIPLIER: u32 = 5;

/// The unit direction summed from the pressed directional actions:
/// opposite directions cancel.
pub fn camera_move_direction(up: bool, down: bool, left: bool, right: bool) -> (d: IVec2)
    ensures
        d.x == (if right { 1int } else { 0int }) - (if left { 1int } else { 0int }),
        d.y == (if up { 1int } else { 0int }) - (if down { 1int } else { 0int }),
{
    let mut x: i32 = 0;
    let mut y: i32 = 0;
    if up {
        y = y + 1;
    }
    if down {
        y = y - 1;
    }
    if right {
        x = x + 1;
    }
    if left {
        x = x - 1;
    }
    IVec2 { x, y }
}

/// The camera speed for this frame: the base speed, multiplied while the
/// superspeed action is held.
pub fn camera_speed(superspeed: bool) -> (s: u32)
    ensures
        s == if superspeed {
            CAMERA_SPEED as int * SUPERSPEED_MULTIPLIER as int
        } else {
            CAMERA_SPEED as int
        },
{
    if superspeed {
        CAMERA_SPEED * SUPERSPEED_MULTIPLIER
    } else {
        CAMERA_SPEED
    }
}

/// The window scale selected by the zoom actions: zooming in takes
/// precedence, and with neither pressed the current scale is kept.
pub fn camera_zoom_scale(zoom_in: bool, zoom_out: bool, current: u32) -> (z: u32)
    ensures
        z == if zoom_in {
            2u32
        } else if zoom_out {
            1u32
        } else {
            current
        },
{
    if zoom_in {
        2
    } else if zoom_out {
        1
    } else {
        current
    }
}

} // verus!
