//! Index data of points, lines and polygons.

use vstd::prelude::*;

verus! {

/// The `Point` type which stores the index of the position vector.
pub type Point = usize;

/// The `Line` type.
#[derive(Clone, Copy, Debug, PartialEq, Eq)]
pub enum Line {
    /// A line which contains only the position data of both ends.
    P([usize; 2]),
    /// A line which contains both position and texture coordinate data of both ends.
    PT([(usize, usize); 2]),
}

/// The `Polygon` type.
#[derive(Clone, Debug, PartialEq, Eq)]
pub enum Polygon {
    /// A polygon which contains only the position data of each vertex.
    P(Vec<usize>),
    /// A polygon which contains both position and texture coordinate data of each vertex.
    PT(Vec<(usize, usize)>),
    /// A polygon which contains both position and normal data of each vertex.
    PN(Vec<(usize, usize)>),
    /// A polygon which contains all position, texture coordinate and normal data of each vertex.
    PTN(Vec<(usize, usize, usize)>),
}

} // verus!
