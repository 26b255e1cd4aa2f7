//! Decoded pictures.
use vstd::prelude::*;
use crate::api::util::Pixel;

verus! {

/// A decoded picture: the samples of each colour plane, row by row.
pub struct Frame<T: Pixel> {
    pub planes: Vec<Vec<T>>,
    pub width: usize,
    pub height: usize,
}

} // verus!
