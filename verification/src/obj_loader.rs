//! Vertices from the flat attribute arrays of a loaded model: three
//! numbers for each position and each normal, two for each texture
//! coordinate.

use vstd::prelude::*;

use crate::scalar::{Scalar, ONE_BITS, ZERO_BITS};
use crate::vertex::{Vector3, Vertex};

verus! {

/// The attribute arrays of one model of a file.
#[derive(Debug, PartialEq, Eq)]
pub struct ModelData {
    /// Three numbers for each position.
    pub positions: Vec<Scalar>,
    /// Three numbers for each normal, or nothing where the model has no
    /// normals.
    pub normals: Vec<Scalar>,
    /// Two numbers for each texture coordinate, or nothing where the model
    /// has none.
    pub texcoords: Vec<Scalar>,
}

/// The normal of a vertex of a model without normals: straight up.
pub open spec fn default_normal() -> Vector3 {
    Vector3 {
        x: Scalar { bits: ZERO_BITS },
        y: Scalar { bits: ONE_BITS },
        z: Scalar { bits: ZERO_BITS },
    }
}

/// The texture coordinate of a vertex for which the model has none: the
/// origin.
pub open spec fn default_tex_coords() -> (Scalar, Scalar) {
    (Scalar { bits: ZERO_BITS }, Scalar { bits: ZERO_BITS })
}

/// The number of vertices that the arrays make: one for every three
/// numbers of `positions`.
pub open spec fn vertex_count(positions: Seq<Scalar>) -> int {
    positions.len() as int / 3
}

/// Whether the arrays give every vertex a normal or none of them: `normals`
/// is empty, or holds three numbers for each vertex.
pub open spec fn normals_cover(positions: Seq<Scalar>, normals: Seq<Scalar>) -> bool {
    normals.len() == 0 || normals.len() >= 3 * vertex_count(positions)
}

/// Vertex `i` of the arrays. Its position is the triple at place `i` of
/// `positions`. Its normal is the triple at place `i` of `normals`, and
/// straight up where `normals` is empty. Its texture coordinate is the
/// pair at place `i` of `texcoords`, and the origin where `texcoords` has
/// no such pair.
pub open spec fn vertex_at(
    positions: Seq<Scalar>,
    normals: Seq<Scalar>,
    texcoords: Seq<Scalar>,
    i: int,
) -> Vertex {
    Vertex {
        position: Vector3 { x: positions[3 * i], y: positions[3 * i + 1], z: positions[3 * i + 2] },
        normal: if normals.len() > 0 {
            Vector3 { x: normals[3 * i], y: normals[3 * i + 1], z: normals[3 * i + 2] }
        } else {
            default_normal()
        },
        tex_coords: if texcoords.len() > 2 * i + 1 {
            (texcoords[2 * i], texcoords[2 * i + 1])
        } else {
            default_tex_coords()
        },
    }
}

/// The vertices of the arrays, in order.
pub open spec fn vertices_of(
    positions: Seq<Scalar>,
    normals: Seq<Scalar>,
    texcoords: Seq<Scalar>,
) -> Seq<Vertex> {
    Seq::new(
        vertex_count(positions) as nat,
        |i: int| vertex_at(positions, normals, texcoords, i),
    )
}

/// The vertices of the first model of a file: `None` where the file has no
/// model. Numbers of `positions` beyond the last full triple are left out.
///
/// The normals of the first model must be none at all or enough for every
/// vertex.
pub fn load_obj(models: &[ModelData]) -> (r: Option<Vec<Vertex>>)
    requires
        models@.len() > 0 ==> normals_cover(models@[0].positions@, models@[0].normals@),
    ensures
        models@.len() == 0 <==> r is None,
        r matches Some(vertices) ==> vertices@ == vertices_of(
            models@[0].positions@,
            models@[0].normals@,
            models@[0].texcoords@,
        ),
{
    if models.len() == 0 {
        return None;
    }
    let model = &models[0];
    let n = model.positions.len();
    let count = n / 3;
    let mut vertices: Vec<Vertex> = Vec::new();
    let mut i: usize = 0;
    while i < count
        invariant
            i <= count,
            n == model.positions@.len(),
            count == n / 3,
            normals_cover(model.positions@, model.normals@),
            vertices@ == vertices_of(model.positions@, model.normals@, model.texcoords@).take(i as int),
        decreases count - i,
    {
        let position = Vector3 {
            x: model.positions[i * 3],
            y: model.positions[i * 3 + 1],
            z: model.positions[i * 3 + 2],
        };
        let normal = if model.normals.len() > 0 {
            Vector3 {
                x: model.normals[i * 3],
                y: model.normals[i * 3 + 1],
                z: model.normals[i * 3 + 2],
            }
        } else {
            Vector3 {
                x: Scalar { bits: ZERO_BITS },
                y: Scalar { bits: ONE_BITS },
                z: Scalar { bits: ZERO_BITS },
            }
        };
        let tex_coords = if model.texcoords.len() > i * 2 + 1 {
            (model.texcoords[i * 2], model.texcoords[i * 2 + 1])
        } else {
            (Scalar { bits: ZERO_BITS }, Scalar { bits: ZERO_BITS })
        };
        vertices.push(Vertex::new(position, normal, tex_coords));
        assert(vertices@ =~= vertices_of(model.positions@, model.normals@, model.texcoords@).take(
            i + 1,
        ));
        i += 1;
    }
    assert(vertices@ =~= vertices_of(model.positions@, model.normals@, model.texcoords@));
    Some(vertices)
}

/// Whether the normals of the first model are none at all or enough for
/// every vertex: what `load_obj` asks for.
pub fn normals_suffice(models: &[ModelData]) -> (r: bool)
    ensures
        r == (models@.len() > 0 ==> normals_cover(models@[0].positions@, models@[0].normals@)),
{
    if models.len() == 0 {
        return true;
    }
    let model = &models[0];
    model.normals.len() == 0 || model.normals.len() / 3 >= model.positions.len() / 3
}

} // verus!
