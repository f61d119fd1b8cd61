use vstd::prelude::*;

verus! {

/// Pointer position and button latches.
#[derive(Clone, Copy, Debug, PartialEq, Eq, Structural)]
pub struct Mouse {
    pub x: u16,
    pub y: u16,
    pub clicked: bool,
    pub released: bool,
    pub held: bool,
}

impl Mouse {
    pub fn new() -> (r: Mouse)
        ensures
            r == (Mouse { x: 0, y: 0, clicked: false, released: false, held: false }),
    {
        Mouse { x: 0, y: 0, clicked: false, released: false, held: false }
    }
}

} // verus!
