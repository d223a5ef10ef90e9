use vstd::prelude::*;

pub mod generator;
pub mod animation;
pub mod render;

verus! {

/// An immutable three-channel color; each channel is an 8-bit intensity.
#[derive(Clone, Copy, PartialEq, Eq, Structural, Debug)]
pub struct Rgb(pub u8, pub u8, pub u8);

/// The fully lit greyscale intensity.
pub open spec fn white() -> Rgb {
    Rgb(255, 255, 255)
}

/// The unlit intensity.
pub open spec fn black() -> Rgb {
    Rgb(0, 0, 0)
}

/// Builds the greyscale color whose three channels all carry `v`.
pub fn grey(v: u8) -> (c: Rgb)
    ensures
        c == Rgb(v, v, v),
{
    Rgb(v, v, v)
}

} // verus!
