use vstd::prelude::*;

verus! {

/// A display color: one byte for each of red, green and blue.
#[derive(Clone, Copy, Debug, PartialEq, Eq, Structural)]
pub struct Color {
    r: u8,
    g: u8,
    b: u8,
}

impl View for Color {
    type V = (u8, u8, u8);

    closed spec fn view(&self) -> (u8, u8, u8) {
        (self.r, self.g, self.b)
    }
}

impl Color {
    /// The color with the given red, green and blue bytes.
    pub fn new(r: u8, g: u8, b: u8) -> (c: Color)
        ensures
            c@ == (r, g, b),
    {
        Color { r, g, b }
    }

    /// The channels in the order red, green, blue.
    pub fn as_array(self) -> (a: [u8; 3])
        ensures
            a@ == seq![self@.0, self@.1, self@.2],
    {
        let a = [self.r, self.g, self.b];
        assert(a@ =~= seq![self@.0, self@.1, self@.2]);
        a
    }
}

} // verus!
