//! Keyboard control of the camera: which keys pan it and which zoom it.
use vstd::prelude::*;

verus! {

/// The camera keys pressed in this frame.
#[derive(Clone, Copy, PartialEq, Eq, Structural, Debug)]
pub struct CameraKeys {
    /// W
    pub up: bool,
    /// S
    pub down: bool,
    /// A
    pub left: bool,
    /// D
    pub right: bool,
    /// Q
    pub shrink: bool,
    /// E
    pub grow: bool,
}

/// How the camera moves in this frame, in steps of the scroll rate (`x`,
/// `y`) and of the zoom rate (`scale`).
#[derive(Clone, Copy, PartialEq, Eq, Structural, Debug)]
pub struct CameraStep {
    pub x: i8,
    pub y: i8,
    pub scale: i8,
}

pub open spec fn key(b: bool) -> int {
    if b { 1 } else { 0 }
}

/// Opposite keys cancel out; each key counts once.
pub fn camera_step(keys: CameraKeys) -> (s: CameraStep)
    ensures
        s.x == key(keys.right) - key(keys.left),
        s.y == key(keys.up) - key(keys.down),
        s.scale == key(keys.grow) - key(keys.shrink),
{
    let mut s = CameraStep { x: 0, y: 0, scale: 0 };
    if keys.up {
        s.y = s.y + 1;
    }
    if keys.down {
        s.y = s.y - 1;
    }
    if keys.left {
        s.x = s.x - 1;
    }
    if keys.right {
        s.x = s.x + 1;
    }
    if keys.shrink {
        s.scale = s.scale - 1;
    }
    if keys.grow {
        s.scale = s.scale + 1;
    }
    s
}

} // verus!
