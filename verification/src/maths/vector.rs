use vstd::prelude::*;

verus! {

/// A fixed-size column of `SIZE` elements.
#[derive(Copy, Clone)]
pub struct Vector<T, const SIZE: usize>([T; SIZE]);

impl<T, const SIZE: usize> View for Vector<T, SIZE> {
    type V = Seq<T>;

    closed spec fn view(&self) -> Seq<T> {
        self.0@
    }
}

impl<T, const SIZE: usize> Vector<T, SIZE> {
    /// Wraps the given elements, keeping their order.
    pub fn new(values: [T; SIZE]) -> (v: Self)
        ensures
            v@ == values@,
            v@.len() == SIZE,
    {
        Vector(values)
    }
}

impl<T: Copy> Vector<T, 3> {
    /// First component.
    pub fn x(&self) -> (r: T)
        ensures
            r == self@[0],
    {
        self.0[0]
    }

    /// Second component.
    pub fn y(&self) -> (r: T)
        ensures
            r == self@[1],
    {
        self.0[1]
    }

    /// Third component.
    pub fn z(&self) -> (r: T)
        ensures
            r == self@[2],
    {
        self.0[2]
    }
}

} // verus!
