use vstd::prelude::*;

verus! {

/// A display cell position, column first.
#[derive(Clone, Copy, Debug, PartialEq, Eq, Structural)]
pub struct Point(pub i32, pub i32);

impl Point {
    /// Component-wise sum of two positions.
    pub fn add(self, rhs: Point) -> (r: Point)
        requires
            i32::MIN <= self.0 + rhs.0 <= i32::MAX,
            i32::MIN <= self.1 + rhs.1 <= i32::MAX,
        ensures
            r.0 == self.0 + rhs.0,
            r.1 == self.1 + rhs.1,
    {
        Point(self.0 + rhs.0, self.1 + rhs.1)
    }
}

/// A surface that shows a full 64 by 32 monochrome frame.
pub trait Renderer {
    /// Shows `screen_ram`, indexed by row then column; a cell of 1 is lit.
    fn render_screen_ram(&mut self, screen_ram: [[u8; 64]; 32]) -> Result<(), String>;
}

} // verus!
