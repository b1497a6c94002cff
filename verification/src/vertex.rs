//! A vertex that holds its attributes by value.

use vstd::prelude::*;

use crate::scalar::Scalar;

verus! {

/// Three coordinates.
#[derive(Debug, Clone, Copy, PartialEq, Eq, Structural)]
pub struct Vector3 {
    pub x: Scalar,
    pub y: Scalar,
    pub z: Scalar,
}

/// A vertex: a position, a normal and a texture coordinate.
#[derive(Debug, Clone, Copy, PartialEq, Eq)]
pub struct Vertex {
    pub position: Vector3,
    pub normal: Vector3,
    pub tex_coords: (Scalar, Scalar),
}

impl Vertex {
    /// The vertex of the attributes given.
    pub fn new(position: Vector3, normal: Vector3, tex_coords: (Scalar, Scalar)) -> (v: Vertex)
        ensures
            v == (Vertex { position, normal, tex_coords }),
    {
        Vertex { position, normal, tex_coords }
    }
}

} // verus!
