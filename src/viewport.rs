use vstd::prelude::*;

verus! {

/// The drawing area inside a window: the largest square that fits, centred.
#[derive(Clone, Copy, Debug, PartialEq, Eq, Structural)]
pub struct Viewport {
    pub x_offset: i32,
    pub y_offset: i32,
    pub width: i32,
}

impl Viewport {
    /// The viewport of a window `x` pixels wide and `y` pixels high: a
    /// square as wide as the shorter side, with the spare length of the
    /// longer side split evenly on both of its ends (the odd pixel at the far end).
    pub fn new(x: i32, y: i32) -> (r: Viewport)
        ensures
            r.width == if x <= y { x } else { y },
            r.x_offset as int == (x - r.width) / 2,
            r.y_offset as int == (y - r.width) / 2,
    {
        let width = if x <= y { x } else { y };
        let x_spare = x as i64 - width as i64;
        let y_spare = y as i64 - width as i64;
        Viewport { x_offset: (x_spare / 2) as i32, y_offset: (y_spare / 2) as i32, width }
    }
}

} // verus!
