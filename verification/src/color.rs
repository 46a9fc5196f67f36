use vstd::prelude::*;

verus! {

/// An RGBA color whose four channels have type `T`.
///
/// The crate never computes with a channel, it only carries it, so `T` is
/// whatever the backend's shaders take.
#[derive(Debug, PartialEq)]
pub struct Color<T> {
    r: T,
    g: T,
    b: T,
    a: T,
}

impl<T> View for Color<T> {
    type V = (T, T, T, T);

    /// The channels in the order red, green, blue, alpha.
    closed spec fn view(&self) -> (T, T, T, T) {
        (self.r, self.g, self.b, self.a)
    }
}

impl<T> Color<T> {
    /// Makes the color with the given channels.
    pub fn new(r: T, g: T, b: T, a: T) -> (color: Self)
        ensures
            color@ == (r, g, b, a),
    {
        Self { r, g, b, a }
    }

    /// Takes the color apart into `(r, g, b, a)`.
    pub fn as_tuple(self) -> (channels: (T, T, T, T))
        ensures
            channels == self@,
    {
        (self.r, self.g, self.b, self.a)
    }
}

} // verus!
