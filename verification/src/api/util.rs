//! Pixel sample types.
use vstd::prelude::*;

verus! {

/// A sample type that decoded pictures can hold: 8-bit or high bit depth.
pub trait Pixel: Copy {

}

impl Pixel for u8 {

}

impl Pixel for u16 {

}

} // verus!
