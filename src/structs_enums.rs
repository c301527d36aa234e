//! A rectangle with methods and associated constructors.

use vstd::prelude::*;

verus! {

/// A rectangle measured in whole pixels.
#[derive(Clone, Copy, Debug, PartialEq, Eq, Structural)]
pub struct Rectangle {
    pub width: u32,
    pub height: u32,
}

impl Rectangle {
    /// A rectangle of the given sides.
    pub fn new(width: u32, height: u32) -> (r: Rectangle)
        ensures
            r.width == width,
            r.height == height,
    {
        Rectangle { width, height }
    }

    /// A square of the given side.
    pub fn square(size: u32) -> (r: Rectangle)
        ensures
            r.width == size,
            r.height == size,
    {
        Rectangle { width: size, height: size }
    }

    /// The area in square pixels; the product must fit in a `u32`.
    pub fn area(&self) -> (r: u32)
        requires
            self.width * self.height <= u32::MAX,
        ensures
            r == self.width * self.height,
    {
        self.width * self.height
    }

    /// Whether `other` fits strictly inside this rectangle, side by side.
    pub fn can_hold(&self, other: &Rectangle) -> (r: bool)
        ensures
            r == (self.width > other.width && self.height > other.height),
    {
        self.width > other.width && self.height > other.height
    }

    /// Doubles both sides; the doubled sides must fit in a `u32`.
    pub fn double_size(&mut self)
        requires
            old(self).width * 2 <= u32::MAX,
            old(self).height * 2 <= u32::MAX,
        ensures
            final(self).width == old(self).width * 2,
            final(self).height == old(self).height * 2,
    {
        self.width = self.width * 2;
        self.height = self.height * 2;
    }
}

} // verus!
