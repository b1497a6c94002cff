//! A triangle mesh read from the lines of a Wavefront OBJ file.
//!
//! The reader keeps every real number as the text that the file gives for
//! it, checked against the grammar of real literals: this crate holds no
//! floating-point value. A vertex names its position, normal and texture
//! coordinate by their places in the three tables of the mesh.

use vstd::prelude::*;
use vstd::hash_map::StringHashMap;
use vstd::string::StringExecFns;
use vstd::string::StrSliceExecFns;

use crate::number::{index_of_literal, is_real, is_real_literal, parse_index};
use crate::text::{
    fields, lemma_fields_nonempty, split_fields, split_words, texts, to_chars, words,
};

verus! {

/// Three real numbers, each as the literal that the file gives for it.
#[derive(Debug, PartialEq, Eq)]
pub struct Literal3 {
    pub x: String,
    pub y: String,
    pub z: String,
}

/// Two real numbers, each as the literal that the file gives for it.
#[derive(Debug, PartialEq, Eq)]
pub struct Literal2 {
    pub u: String,
    pub v: String,
}

impl View for Literal3 {
    type V = (Seq<char>, Seq<char>, Seq<char>);

    open spec fn view(&self) -> Self::V {
        (self.x@, self.y@, self.z@)
    }
}

impl View for Literal2 {
    type V = (Seq<char>, Seq<char>);

    open spec fn view(&self) -> Self::V {
        (self.u@, self.v@)
    }
}

/// The views of a sequence of triples, in order.
pub open spec fn triples(v: Seq<Literal3>) -> Seq<(Seq<char>, Seq<char>, Seq<char>)> {
    Seq::new(v.len(), |i: int| v[i]@)
}

/// The views of a sequence of pairs, in order.
pub open spec fn pairs(v: Seq<Literal2>) -> Seq<(Seq<char>, Seq<char>)> {
    Seq::new(v.len(), |i: int| v[i]@)
}

/// A vertex of a mesh: the places of its attributes in the tables of the
/// mesh. A normal or a texture coordinate is missing only where the face
/// corner writes no index for it and the file has given none so far: such a
/// vertex takes the direction of its position for its normal, and the
/// origin of the texture for its texture coordinate.
#[derive(Debug, Clone, Copy, PartialEq, Eq, Structural)]
pub struct Vertex {
    pub position: usize,
    pub normal: Option<usize>,
    pub uv: Option<usize>,
}

/// The coordinate of a `v`, `vn` or `vt` statement that a literal stands
/// for.
#[derive(Debug, Clone, Copy, PartialEq, Eq, Structural)]
pub enum NumberField {
    X,
    Y,
    Z,
    NormalX,
    NormalY,
    NormalZ,
    U,
    V,
}

/// The attribute that one index of a face corner names.
#[derive(Debug, Clone, Copy, PartialEq, Eq, Structural)]
pub enum IndexField {
    Position,
    Uv,
    Normal,
}

/// Why a file is no mesh. `line` counts the lines of the file from one.
#[derive(Debug, PartialEq, Eq)]
pub enum ObjError {
    /// A coordinate that is no real literal.
    InvalidNumber { line: usize, coordinate: NumberField, token: String },
    /// An index of a face corner that is no index literal, or too large a
    /// number.
    InvalidIndex { line: usize, attribute: IndexField, token: String },
    /// A face corner whose position is none of the positions given so far.
    /// `index` is the index as the file writes it: zero, or a number beyond
    /// the positions.
    PositionOutOfRange { line: usize, index: usize },
    /// A face corner that writes a texture coordinate which is none of
    /// those given so far. `index` is the index as the file writes it.
    UvOutOfRange { line: usize, index: usize },
    /// A face corner that writes a normal which is none of those given so
    /// far. `index` is the index as the file writes it.
    NormalOutOfRange { line: usize, index: usize },
    /// A face corner that would be vertex number 2^32 or later.
    TooManyVertices { line: usize },
}

/// An `ObjError` with its token as a sequence of characters.
pub enum ObjFault {
    InvalidNumber { line: usize, coordinate: NumberField, token: Seq<char> },
    InvalidIndex { line: usize, attribute: IndexField, token: Seq<char> },
    PositionOutOfRange { line: usize, index: usize },
    UvOutOfRange { line: usize, index: usize },
    NormalOutOfRange { line: usize, index: usize },
    TooManyVertices { line: usize },
}

impl View for ObjError {
    type V = ObjFault;

    open spec fn view(&self) -> ObjFault {
        match *self {
            ObjError::InvalidNumber { line, coordinate, token } => ObjFault::InvalidNumber {
                line,
                coordinate,
                token: token@,
            },
            ObjError::InvalidIndex { line, attribute, token } => ObjFault::InvalidIndex {
                line,
                attribute,
                token: token@,
            },
            ObjError::PositionOutOfRange { line, index } => ObjFault::PositionOutOfRange {
                line,
                index,
            },
            ObjError::UvOutOfRange { line, index } => ObjFault::UvOutOfRange { line, index },
            ObjError::NormalOutOfRange { line, index } => ObjFault::NormalOutOfRange {
                line,
                index,
            },
            ObjError::TooManyVertices { line } => ObjFault::TooManyVertices { line },
        }
    }
}

/// What a mesh holds.
#[verifier::ext_equal]
pub struct MeshView {
    /// The positions of the file, in its order.
    pub positions: Seq<(Seq<char>, Seq<char>, Seq<char>)>,
    /// The normals of the file, in its order.
    pub normals: Seq<(Seq<char>, Seq<char>, Seq<char>)>,
    /// The texture coordinates of the file, in its order.
    pub uvs: Seq<(Seq<char>, Seq<char>)>,
    /// One vertex for each distinct face corner, in the order in which the
    /// corners first occur.
    pub vertices: Seq<Vertex>,
    /// The triangles: three places among `vertices` each.
    pub indices: Seq<u32>,
}

/// A mesh in the making: what has been read so far, and the vertex that
/// stands for each face corner seen so far.
#[verifier::ext_equal]
pub struct ObjModel {
    pub mesh: MeshView,
    pub seen: Map<Seq<char>, u32>,
}

impl MeshView {
    /// The mesh of an empty file.
    pub open spec fn empty() -> MeshView {
        MeshView {
            positions: Seq::empty(),
            normals: Seq::empty(),
            uvs: Seq::empty(),
            vertices: Seq::empty(),
            indices: Seq::empty(),
        }
    }

    /// The number of triangles.
    pub open spec fn triangle_count(self) -> nat {
        self.indices.len() / 3
    }

    /// Whether the mesh is sound: every number in its tables is a real
    /// literal, every vertex names entries that its tables have, the
    /// indices come in threes, and every index names a vertex.
    pub open spec fn wf(self) -> bool {
        &&& forall|i: int|
            0 <= i < self.positions.len() ==> {
                &&& is_real_literal((#[trigger] self.positions[i]).0)
                &&& is_real_literal(self.positions[i].1)
                &&& is_real_literal(self.positions[i].2)
            }
        &&& forall|i: int|
            0 <= i < self.normals.len() ==> {
                &&& is_real_literal((#[trigger] self.normals[i]).0)
                &&& is_real_literal(self.normals[i].1)
                &&& is_real_literal(self.normals[i].2)
            }
        &&& forall|i: int|
            0 <= i < self.uvs.len() ==> {
                &&& is_real_literal((#[trigger] self.uvs[i]).0)
                &&& is_real_literal(self.uvs[i].1)
            }
        &&& forall|i: int|
            0 <= i < self.vertices.len() ==> {
                &&& (#[trigger] self.vertices[i]).position < self.positions.len()
                &&& (self.vertices[i].normal matches Some(n) ==> n < self.normals.len())
                &&& (self.vertices[i].uv matches Some(t) ==> t < self.uvs.len())
            }
        &&& self.indices.len() % 3 == 0
        &&& forall|j: int| 0 <= j < self.indices.len() ==> (#[trigger] self.indices[j]) < self.vertices.len()
    }
}

/// Whether some face corner seen stands for vertex `i`.
pub open spec fn stands_for(seen: Map<Seq<char>, u32>, i: int) -> bool {
    exists|k: Seq<char>| seen.dom().contains(k) && #[trigger] seen[k] == i
}

impl ObjModel {
    /// The state before the first line.
    pub open spec fn empty() -> ObjModel {
        ObjModel { mesh: MeshView::empty(), seen: Map::empty() }
    }

    /// Whether the state is sound: its mesh is, no more vertices exist than
    /// a 32-bit index can tell apart, and face corners and vertices match
    /// one to one: every corner seen stands for a vertex that exists, two
    /// corners for two vertices, and every vertex has its corner.
    pub open spec fn wf(self) -> bool {
        &&& self.mesh.wf()
        &&& self.mesh.vertices.len() <= 0x1_0000_0000
        &&& forall|k: Seq<char>|
            self.seen.dom().contains(k) ==> (#[trigger] self.seen[k]) < self.mesh.vertices.len()
        &&& forall|k: Seq<char>, l: Seq<char>|
            self.seen.dom().contains(k) && self.seen.dom().contains(l) && #[trigger] self.seen[k]
                == #[trigger] self.seen[l] ==> k == l
        &&& forall|i: int|
            0 <= i < self.mesh.vertices.len() ==> #[trigger] stands_for(self.seen, i)
    }
}

/// The entry that a one-based index names in a table of `len` entries, from
/// zero; `None` where it names none.
pub open spec fn entry(one_based: usize, len: nat) -> Option<usize> {
    if 1 <= one_based <= len {
        Some((one_based - 1) as usize)
    } else {
        None
    }
}

/// Whether a face corner writes an index at place `k`: it has a piece
/// there, and the piece is not empty.
pub open spec fn is_written(pieces: Seq<Seq<char>>, k: int) -> bool {
    k < pieces.len() && pieces[k].len() > 0
}

/// The index that the piece at place `k` of a face corner gives: the number
/// that it writes, and one, the first entry, where the corner writes none.
/// `None` where the corner writes something that is no index literal.
pub open spec fn optional_index(pieces: Seq<Seq<char>>, k: int) -> Option<usize> {
    if is_written(pieces, k) {
        index_of_literal(pieces[k])
    } else {
        Some(1)
    }
}

/// What reading one face corner does. A corner seen before stands for the
/// vertex that it stood for then. A new corner is cut at its slashes into
/// the indices of a position, a texture coordinate and a normal, and makes
/// a new vertex. It is at fault where an index is no index literal, and
/// where an index that it writes names none of the entries given so far:
/// first the position, then the texture coordinate, then the normal. An
/// index that it does not write names the first entry, and nothing where
/// there is no entry yet.
pub open spec fn read_corner(m: ObjModel, line: usize, token: Seq<char>) -> Result<
    (ObjModel, u32),
    ObjFault,
> {
    if m.seen.dom().contains(token) {
        Ok((m, m.seen[token]))
    } else {
        let pieces = fields(token, '/');
        let position = index_of_literal(pieces[0]);
        let uv = optional_index(pieces, 1);
        let normal = optional_index(pieces, 2);
        if position is None {
            Err(ObjFault::InvalidIndex { line, attribute: IndexField::Position, token: pieces[0] })
        } else if uv is None {
            Err(ObjFault::InvalidIndex { line, attribute: IndexField::Uv, token: pieces[1] })
        } else if normal is None {
            Err(ObjFault::InvalidIndex { line, attribute: IndexField::Normal, token: pieces[2] })
        } else if entry(position->0, m.mesh.positions.len()) is None {
            Err(ObjFault::PositionOutOfRange { line, index: position->0 })
        } else if is_written(pieces, 1) && entry(uv->0, m.mesh.uvs.len()) is None {
            Err(ObjFault::UvOutOfRange { line, index: uv->0 })
        } else if is_written(pieces, 2) && entry(normal->0, m.mesh.normals.len()) is None {
            Err(ObjFault::NormalOutOfRange { line, index: normal->0 })
        } else if m.mesh.vertices.len() > u32::MAX {
            Err(ObjFault::TooManyVertices { line })
        } else {
            let vertex = Vertex {
                position: entry(position->0, m.mesh.positions.len())->0,
                normal: entry(normal->0, m.mesh.normals.len()),
                uv: entry(uv->0, m.mesh.uvs.len()),
            };
            let index = m.mesh.vertices.len() as u32;
            Ok(
                (
                    ObjModel {
                        mesh: MeshView { vertices: m.mesh.vertices.push(vertex), ..m.mesh },
                        seen: m.seen.insert(token, index),
                    },
                    index,
                ),
            )
        }
    }
}

/// What reading the corners of a face from place `from` on does: each in
/// turn, up to the first that is at fault. `face` holds the vertices of the
/// corners before `from`.
pub open spec fn read_corners(
    m: ObjModel,
    line: usize,
    corners: Seq<Seq<char>>,
    from: int,
    face: Seq<u32>,
) -> Result<(ObjModel, Seq<u32>), ObjFault>
    decreases corners.len() - from,
{
    if from < 0 || from >= corners.len() {
        Ok((m, face))
    } else {
        match read_corner(m, line, corners[from]) {
            Err(e) => Err(e),
            Ok((next, index)) => read_corners(next, line, corners, from + 1, face.push(index)),
        }
    }
}

/// The triangles of a face as a fan about its first corner: the first
/// corner with each two neighbours among the others, in order.
pub open spec fn fan(face: Seq<u32>) -> Seq<u32> {
    Seq::new(
        (3 * (face.len() - 2)) as nat,
        |j: int|
            if j % 3 == 0 {
                face[0]
            } else if j % 3 == 1 {
                face[j / 3 + 1]
            } else {
                face[j / 3 + 2]
            },
    )
}

/// What reading a face of the corners given does: the corners in turn, and
/// then the triangles of their fan.
pub open spec fn read_face(m: ObjModel, line: usize, corners: Seq<Seq<char>>) -> Result<
    ObjModel,
    ObjFault,
> {
    match read_corners(m, line, corners, 0, Seq::empty()) {
        Err(e) => Err(e),
        Ok((next, face)) => Ok(
            ObjModel {
                mesh: MeshView { indices: next.mesh.indices + fan(face), ..next.mesh },
                ..next
            },
        ),
    }
}

/// The first of the three words after the keyword that is no real literal,
/// with its place among them.
pub open spec fn first_bad_of_three(w: Seq<Seq<char>>) -> Option<int> {
    if !is_real_literal(w[1]) {
        Some(0int)
    } else if !is_real_literal(w[2]) {
        Some(1int)
    } else if !is_real_literal(w[3]) {
        Some(2int)
    } else {
        None
    }
}

/// What reading one line does to the state, or the fault of the line.
///
/// A line is taken by its words. `v` and `vn` with three numbers or more
/// add a position or a normal, `vt` with two or more a texture coordinate,
/// `f` with three corners or more a face; words beyond the third number
/// (the second of `vt`) are not looked at. Every other line, a comment or a
/// statement with too few words among them, changes nothing.
pub open spec fn read_line(m: ObjModel, line: usize, text: Seq<char>) -> Result<ObjModel, ObjFault> {
    let w = words(text);
    if w.len() >= 4 && w[0] == seq!['v'] {
        match first_bad_of_three(w) {
            Some(k) => Err(
                ObjFault::InvalidNumber {
                    line,
                    coordinate: if k == 0 {
                        NumberField::X
                    } else if k == 1 {
                        NumberField::Y
                    } else {
                        NumberField::Z
                    },
                    token: w[k + 1],
                },
            ),
            None => Ok(
                ObjModel {
                    mesh: MeshView { positions: m.mesh.positions.push((w[1], w[2], w[3])), ..m.mesh },
                    ..m
                },
            ),
        }
    } else if w.len() >= 4 && w[0] == seq!['v', 'n'] {
        match first_bad_of_three(w) {
            Some(k) => Err(
                ObjFault::InvalidNumber {
                    line,
                    coordinate: if k == 0 {
                        NumberField::NormalX
                    } else if k == 1 {
                        NumberField::NormalY
                    } else {
                        NumberField::NormalZ
                    },
                    token: w[k + 1],
                },
            ),
            None => Ok(
                ObjModel {
                    mesh: MeshView { normals: m.mesh.normals.push((w[1], w[2], w[3])), ..m.mesh },
                    ..m
                },
            ),
        }
    } else if w.len() >= 3 && w[0] == seq!['v', 't'] {
        if !is_real_literal(w[1]) {
            Err(ObjFault::InvalidNumber { line, coordinate: NumberField::U, token: w[1] })
        } else if !is_real_literal(w[2]) {
            Err(ObjFault::InvalidNumber { line, coordinate: NumberField::V, token: w[2] })
        } else {
            Ok(ObjModel { mesh: MeshView { uvs: m.mesh.uvs.push((w[1], w[2])), ..m.mesh }, ..m })
        }
    } else if w.len() >= 4 && w[0] == seq!['f'] {
        read_face(m, line, w.skip(1))
    } else {
        Ok(m)
    }
}

/// What reading the lines from place `from` on does: each in turn, up to
/// the first that is at fault. Lines count from one.
pub open spec fn read_lines(m: ObjModel, lines: Seq<Seq<char>>, from: int) -> Result<
    ObjModel,
    ObjFault,
>
    decreases lines.len() - from,
{
    if from < 0 || from >= lines.len() {
        Ok(m)
    } else {
        match read_line(m, (from + 1) as usize, lines[from]) {
            Err(e) => Err(e),
            Ok(next) => read_lines(next, lines, from + 1),
        }
    }
}

/// The mesh that the lines of a file describe, or the fault of the first
/// line at fault.
pub open spec fn parse_obj(lines: Seq<Seq<char>>) -> Result<MeshView, ObjFault> {
    match read_lines(ObjModel::empty(), lines, 0) {
        Ok(m) => Ok(m.mesh),
        Err(e) => Err(e),
    }
}

/// The reader of a file, line by line: the tables so far, and the vertex of
/// each face corner seen so far.
struct Reader {
    positions: Vec<Literal3>,
    normals: Vec<Literal3>,
    uvs: Vec<Literal2>,
    vertices: Vec<Vertex>,
    indices: Vec<u32>,
    seen: StringHashMap<u32>,
}

/// Whether `word` is the keyword of one or two letters given.
fn is_keyword(word: &str, first: char, second: Option<char>) -> (r: bool)
    ensures
        r == (word@ == match second {
            Some(c) => seq![first, c],
            None => seq![first],
        }),
{
    let chars = to_chars(word);
    match second {
        Some(c) => {
            let r = chars.len() == 2 && chars[0] == first && chars[1] == c;
            assert(r == (chars@ =~= seq![first, c]));
            r
        },
        None => {
            let r = chars.len() == 1 && chars[0] == first;
            assert(r == (chars@ =~= seq![first]));
            r
        },
    }
}

/// The place among the three words after the keyword of the first that is
/// no real literal.
fn find_bad_of_three(w: &Vec<String>) -> (r: Option<usize>)
    requires
        w.len() >= 4,
    ensures
        match first_bad_of_three(texts(w@)) {
            Some(k) => r == Some(k as usize) && 0 <= k < 3,
            None => r is None,
        },
{
    if !is_real(w[1].as_str()) {
        Some(0)
    } else if !is_real(w[2].as_str()) {
        Some(1)
    } else if !is_real(w[3].as_str()) {
        Some(2)
    } else {
        None
    }
}

/// Whether a face corner writes an index at place `k`.
fn has_index(pieces: &Vec<String>, k: usize) -> (r: bool)
    ensures
        r == is_written(texts(pieces@), k as int),
{
    k < pieces.len() && pieces[k].as_str().unicode_len() > 0
}

/// The one-based index that the piece at place `k` of a face corner gives.
fn read_optional_index(pieces: &Vec<String>, k: usize) -> (r: Option<usize>)
    ensures
        r == optional_index(texts(pieces@), k as int),
{
    if has_index(pieces, k) {
        parse_index(pieces[k].as_str())
    } else {
        Some(1)
    }
}

/// The entry that a one-based index names in a table of `len` entries.
fn find_entry(one_based: usize, len: usize) -> (r: Option<usize>)
    ensures
        r == entry(one_based, len as nat),
{
    if 1 <= one_based && one_based <= len {
        Some(one_based - 1)
    } else {
        None
    }
}

impl Reader {
    /// What has been read so far.
    spec fn model(&self) -> ObjModel {
        ObjModel {
            mesh: MeshView {
                positions: triples(self.positions@),
                normals: triples(self.normals@),
                uvs: pairs(self.uvs@),
                vertices: self.vertices@,
                indices: self.indices@,
            },
            seen: self.seen@,
        }
    }

    fn new() -> (r: Reader)
        ensures
            r.model() =~= ObjModel::empty(),
    {
        Reader {
            positions: Vec::new(),
            normals: Vec::new(),
            uvs: Vec::new(),
            vertices: Vec::new(),
            indices: Vec::new(),
            seen: StringHashMap::new(),
        }
    }

    fn read_corner(&mut self, line: usize, token: &str) -> (r: Result<u32, ObjError>)
        ensures
            match read_corner(old(self).model(), line, token@) {
                Ok((m, index)) => r == Ok::<u32, ObjError>(index) && final(self).model() =~= m,
                Err(e) => r is Err && r->Err_0@ == e,
            },
    {
        if let Some(index) = self.seen.get(token) {
            return Ok(*index);
        }
        let mut pieces = split_fields(token, '/');
        proof {
            lemma_fields_nonempty(token@, '/');
        }
        let position = parse_index(pieces[0].as_str());
        let uv = read_optional_index(&pieces, 1);
        let normal = read_optional_index(&pieces, 2);
        let uv_written = has_index(&pieces, 1);
        let normal_written = has_index(&pieces, 2);
        let position = match position {
            Some(p) => p,
            None => {
                return Err(
                    ObjError::InvalidIndex {
                        line,
                        attribute: IndexField::Position,
                        token: pieces.swap_remove(0),
                    },
                );
            },
        };
        let uv = match uv {
            Some(t) => t,
            None => {
                return Err(
                    ObjError::InvalidIndex {
                        line,
                        attribute: IndexField::Uv,
                        token: pieces.swap_remove(1),
                    },
                );
            },
        };
        let normal = match normal {
            Some(n) => n,
            None => {
                return Err(
                    ObjError::InvalidIndex {
                        line,
                        attribute: IndexField::Normal,
                        token: pieces.swap_remove(2),
                    },
                );
            },
        };
        let position = match find_entry(position, self.positions.len()) {
            Some(p) => p,
            None => {
                return Err(ObjError::PositionOutOfRange { line, index: position });
            },
        };
        let uv_entry = find_entry(uv, self.uvs.len());
        if uv_written && uv_entry.is_none() {
            return Err(ObjError::UvOutOfRange { line, index: uv });
        }
        let normal_entry = find_entry(normal, self.normals.len());
        if normal_written && normal_entry.is_none() {
            return Err(ObjError::NormalOutOfRange { line, index: normal });
        }
        if self.vertices.len() > 0xffff_ffff {
            return Err(ObjError::TooManyVertices { line });
        }
        let vertex = Vertex { position, normal: normal_entry, uv: uv_entry };
        let index = self.vertices.len() as u32;
        self.vertices.push(vertex);
        self.seen.insert(String::from_str(token), index);
        Ok(index)
    }

    /// Appends the triangles of the fan of `face`.
    fn push_fan(&mut self, face: &Vec<u32>)
        requires
            face.len() >= 3,
        ensures
            final(self).model() =~= (ObjModel {
                mesh: MeshView {
                    indices: old(self).model().mesh.indices + fan(face@),
                    ..old(self).model().mesh
                },
                ..old(self).model()
            }),
    {
        let ghost before = self.model();
        let n = face.len();
        let mut t: usize = 0;
        while t < n - 2
            invariant
                n == face.len(),
                n >= 3,
                t <= n - 2,
                self.model() =~= (ObjModel {
                    mesh: MeshView {
                        indices: before.mesh.indices + fan(face@).take(3 * t),
                        ..before.mesh
                    },
                    ..before
                }),
            decreases n - t,
        {
            self.indices.push(face[0]);
            self.indices.push(face[t + 1]);
            self.indices.push(face[t + 2]);
            proof {
                let grown = fan(face@).take(3 * (t + 1));
                assert(grown[3 * t] == face@[0]);
                assert(grown[3 * t + 1] == face@[t + 1]);
                assert(grown[3 * t + 2] == face@[t + 2]);
                assert(self.indices@ =~= before.mesh.indices + grown);
            }
            t += 1;
        }
        assert(fan(face@).take(3 * (n - 2)) =~= fan(face@));
    }

    /// Reads a face: `w` holds the keyword and then the corners.
    fn read_face(&mut self, line: usize, w: &Vec<String>) -> (r: Result<(), ObjError>)
        requires
            w.len() >= 4,
        ensures
            match read_face(old(self).model(), line, texts(w@).skip(1)) {
                Ok(m) => r is Ok && final(self).model() =~= m,
                Err(e) => r is Err && r->Err_0@ == e,
            },
    {
        let ghost start = self.model();
        let ghost corners = texts(w@).skip(1);
        let mut face: Vec<u32> = Vec::new();
        let mut k: usize = 1;
        while k < w.len()
            invariant
                1 <= k <= w.len(),
                w.len() >= 4,
                start == old(self).model(),
                corners == texts(w@).skip(1),
                face.len() == k - 1,
                read_corners(start, line, corners, 0, Seq::empty()) == read_corners(
                    self.model(),
                    line,
                    corners,
                    k - 1,
                    face@,
                ),
            decreases w.len() - k,
        {
            assert(corners[k - 1] == w@[k as int]@);
            match self.read_corner(line, w[k].as_str()) {
                Ok(index) => {
                    face.push(index);
                },
                Err(e) => {
                    return Err(e);
                },
            }
            k += 1;
        }
        self.push_fan(&face);
        Ok(())
    }

    /// Reads one line of the file, the line with number `line`.
    fn read_line(&mut self, line: usize, text: &str) -> (r: Result<(), ObjError>)
        ensures
            match read_line(old(self).model(), line, text@) {
                Ok(m) => r is Ok && final(self).model() =~= m,
                Err(e) => r is Err && r->Err_0@ == e,
            },
    {
        let mut w = split_words(text);
        if w.len() < 3 {
            return Ok(());
        }
        let is_v = is_keyword(w[0].as_str(), 'v', None);
        let is_vn = is_keyword(w[0].as_str(), 'v', Some('n'));
        let is_vt = is_keyword(w[0].as_str(), 'v', Some('t'));
        let is_f = is_keyword(w[0].as_str(), 'f', None);
        if w.len() >= 4 && (is_v || is_vn) {
            match find_bad_of_three(&w) {
                Some(k) => {
                    let coordinate = if is_v {
                        if k == 0 {
                            NumberField::X
                        } else if k == 1 {
                            NumberField::Y
                        } else {
                            NumberField::Z
                        }
                    } else {
                        if k == 0 {
                            NumberField::NormalX
                        } else if k == 1 {
                            NumberField::NormalY
                        } else {
                            NumberField::NormalZ
                        }
                    };
                    Err(ObjError::InvalidNumber { line, coordinate, token: w.swap_remove(k + 1) })
                },
                None => {
                    let triple = Literal3 { x: w[1].clone(), y: w[2].clone(), z: w[3].clone() };
                    if is_v {
                        self.positions.push(triple);
                    } else {
                        self.normals.push(triple);
                    }
                    Ok(())
                },
            }
        } else if is_vt {
            if !is_real(w[1].as_str()) {
                Err(ObjError::InvalidNumber { line, coordinate: NumberField::U, token: w.swap_remove(1) })
            } else if !is_real(w[2].as_str()) {
                Err(ObjError::InvalidNumber { line, coordinate: NumberField::V, token: w.swap_remove(2) })
            } else {
                self.uvs.push(Literal2 { u: w[1].clone(), v: w[2].clone() });
                Ok(())
            }
        } else if w.len() >= 4 && is_f {
            self.read_face(line, &w)
        } else {
            Ok(())
        }
    }
}

/// Reading a face corner keeps a sound state sound, adds at most one vertex
/// and nothing else, and gives a vertex that exists and that the state
/// remembers for the corner. The vertex of a new corner has the entries
/// that the corner writes: no index that is written is passed over.
pub proof fn lemma_read_corner(m: ObjModel, line: usize, token: Seq<char>)
    requires
        m.wf(),
    ensures
        read_corner(m, line, token) matches Ok((next, index)) ==> {
            &&& next.wf()
            &&& index < next.mesh.vertices.len()
            &&& next.seen.dom().contains(token)
            &&& next.seen[token] == index
            &&& m.mesh.vertices.len() <= next.mesh.vertices.len() <= m.mesh.vertices.len() + 1
            &&& m.mesh.vertices =~= next.mesh.vertices.take(m.mesh.vertices.len() as int)
            &&& next.mesh.positions == m.mesh.positions
            &&& next.mesh.normals == m.mesh.normals
            &&& next.mesh.uvs == m.mesh.uvs
            &&& next.mesh.indices == m.mesh.indices
            &&& forall|k: Seq<char>| #[trigger]
                m.seen.dom().contains(k) ==> next.seen.dom().contains(k) && next.seen[k]
                    == m.seen[k]
            &&& !m.seen.dom().contains(token) ==> {
                let pieces = fields(token, '/');
                let vertex = next.mesh.vertices[index as int];
                &&& index == m.mesh.vertices.len()
                &&& index_of_literal(pieces[0]) == Some((vertex.position + 1) as usize)
                &&& is_written(pieces, 1) ==> vertex.uv is Some && index_of_literal(pieces[1])
                    == Some((vertex.uv->0 + 1) as usize)
                &&& is_written(pieces, 2) ==> vertex.normal is Some && index_of_literal(pieces[2])
                    == Some((vertex.normal->0 + 1) as usize)
                &&& !is_written(pieces, 1) ==> (vertex.uv is None <==> m.mesh.uvs.len() == 0)
                &&& !is_written(pieces, 2) ==> (vertex.normal is None <==> m.mesh.normals.len()
                    == 0)
            }
        },
{
    if let Ok((next, index)) = read_corner(m, line, token) {
        if !m.seen.dom().contains(token) {
            assert forall|i: int| 0 <= i < next.mesh.vertices.len() implies #[trigger] stands_for(
                next.seen,
                i,
            ) by {
                if i < m.mesh.vertices.len() {
                    assert(stands_for(m.seen, i));
                    let k = choose|k: Seq<char>| m.seen.dom().contains(k) && #[trigger] m.seen[k] == i;
                    assert(next.seen.dom().contains(k) && next.seen[k] == i);
                } else {
                    assert(next.seen.dom().contains(token) && next.seen[token] == i);
                }
            }
        }
    }
}

/// Reading the corners of a face keeps a sound state sound and gives one
/// vertex for each corner, each of which exists and is the one that the
/// state remembers for its corner.
pub proof fn lemma_read_corners(
    m: ObjModel,
    line: usize,
    corners: Seq<Seq<char>>,
    from: int,
    face: Seq<u32>,
)
    requires
        m.wf(),
        0 <= from <= corners.len(),
        face.len() == from,
        forall|j: int| 0 <= j < from ==> m.seen.dom().contains(#[trigger] corners[j]),
        forall|j: int| 0 <= j < from ==> m.seen[corners[j]] == #[trigger] face[j],
    ensures
        read_corners(m, line, corners, from, face) matches Ok((next, all)) ==> {
            &&& next.wf()
            &&& all.len() == corners.len()
            &&& forall|j: int|
                0 <= j < corners.len() ==> next.seen.dom().contains(#[trigger] corners[j])
            &&& forall|j: int| 0 <= j < corners.len() ==> next.seen[corners[j]] == #[trigger] all[j]
            &&& forall|j: int| 0 <= j < all.len() ==> (#[trigger] all[j]) < next.mesh.vertices.len()
            &&& m.mesh.vertices.len() <= next.mesh.vertices.len()
            &&& m.mesh.vertices =~= next.mesh.vertices.take(m.mesh.vertices.len() as int)
            &&& next.mesh.positions == m.mesh.positions
            &&& next.mesh.normals == m.mesh.normals
            &&& next.mesh.uvs == m.mesh.uvs
            &&& next.mesh.indices == m.mesh.indices
        },
    decreases corners.len() - from,
{
    if from < corners.len() {
        lemma_read_corner(m, line, corners[from]);
        match read_corner(m, line, corners[from]) {
            Err(_) => {},
            Ok((next, index)) => {
                let grown = face.push(index);
                assert forall|j: int| 0 <= j < from + 1 implies next.seen[corners[j]]
                    == #[trigger] grown[j] by {
                    if j < from {
                        assert(face[j] == grown[j]);
                    }
                }
                lemma_read_corners(next, line, corners, from + 1, grown);
            },
        }
    }
}

/// Every index of a fan is a corner of its face.
pub proof fn lemma_fan(face: Seq<u32>)
    requires
        face.len() >= 3,
    ensures
        fan(face).len() == 3 * (face.len() - 2),
        forall|j: int|
            0 <= j < fan(face).len() ==> exists|k: int|
                0 <= k < face.len() && #[trigger] fan(face)[j] == face[k],
        forall|t: int|
            0 <= t < face.len() - 2 ==> {
                &&& #[trigger] fan(face)[3 * t] == face[0]
                &&& fan(face)[3 * t + 1] == face[t + 1]
                &&& fan(face)[3 * t + 2] == face[t + 2]
            },
{
    assert forall|j: int| 0 <= j < fan(face).len() implies exists|k: int|
        0 <= k < face.len() && #[trigger] fan(face)[j] == face[k] by {
        if j % 3 == 0 {
            assert(fan(face)[j] == face[0]);
        } else if j % 3 == 1 {
            assert(fan(face)[j] == face[j / 3 + 1]);
        } else {
            assert(fan(face)[j] == face[j / 3 + 2]);
        }
    }
}

/// Reading a line keeps a sound state sound.
pub proof fn lemma_read_line(m: ObjModel, line: usize, text: Seq<char>)
    requires
        m.wf(),
    ensures
        read_line(m, line, text) matches Ok(next) ==> next.wf(),
{
    let w = words(text);
    if w.len() >= 4 && w[0] == seq!['f'] {
        let corners = w.skip(1);
        lemma_read_corners(m, line, corners, 0, Seq::empty());
        match read_corners(m, line, corners, 0, Seq::empty()) {
            Err(_) => {},
            Ok((next, face)) => {
                lemma_fan(face);
                let last = read_face(m, line, corners)->Ok_0;
                assert forall|j: int| 0 <= j < last.mesh.indices.len() implies (
                #[trigger] last.mesh.indices[j]) < last.mesh.vertices.len() by {
                    if j >= next.mesh.indices.len() {
                        let k = choose|k: int|
                            0 <= k < face.len() && fan(face)[j - next.mesh.indices.len()] == face[k];
                        assert(face[k] < next.mesh.vertices.len());
                    }
                }
            },
        }
    }
}

/// Reading lines keeps a sound state sound.
pub proof fn lemma_read_lines(m: ObjModel, lines: Seq<Seq<char>>, from: int)
    requires
        m.wf(),
    ensures
        read_lines(m, lines, from) matches Ok(next) ==> next.wf(),
    decreases lines.len() - from,
{
    if 0 <= from < lines.len() {
        lemma_read_line(m, (from + 1) as usize, lines[from]);
        match read_line(m, (from + 1) as usize, lines[from]) {
            Err(_) => {},
            Ok(next) => {
                lemma_read_lines(next, lines, from + 1);
            },
        }
    }
}

/// The mesh of a file is sound: every number in its tables is a real
/// literal, every vertex names entries that the tables have, the indices
/// come in threes, and every index names a vertex.
pub proof fn lemma_parse_obj_wf(lines: Seq<Seq<char>>)
    ensures
        parse_obj(lines) matches Ok(mesh) ==> mesh.wf(),
{
    lemma_read_lines(ObjModel::empty(), lines, 0);
}

/// A triangle mesh: three tables of attributes, the vertices that name
/// entries of them, and the triangles that name vertices. A mesh is sound
/// at every moment, as `MeshView::wf` says.
#[derive(Debug)]
pub struct Mesh {
    positions: Vec<Literal3>,
    normals: Vec<Literal3>,
    uvs: Vec<Literal2>,
    vertices: Vec<Vertex>,
    indices: Vec<u32>,
}

impl View for Mesh {
    type V = MeshView;

    closed spec fn view(&self) -> MeshView {
        MeshView {
            positions: triples(self.positions@),
            normals: triples(self.normals@),
            uvs: pairs(self.uvs@),
            vertices: self.vertices@,
            indices: self.indices@,
        }
    }
}

impl Mesh {
    #[verifier::type_invariant]
    spec fn sound(&self) -> bool {
        self@.wf()
    }

    /// Reads a mesh from the lines of a Wavefront OBJ file, given without
    /// their line ends. The result is the mesh that `parse_obj` describes,
    /// or the fault of the first line at fault.
    pub fn from_obj(lines: &[String]) -> (r: Result<Mesh, ObjError>)
        ensures
            match parse_obj(texts(lines@)) {
                Ok(mesh) => r matches Ok(read) && read@ == mesh && mesh.wf(),
                Err(fault) => r matches Err(e) && e@ == fault,
            },
    {
        let ghost all = texts(lines@);
        let mut reader = Reader::new();
        let mut i: usize = 0;
        while i < lines.len()
            invariant
                i <= lines.len(),
                all == texts(lines@),
                reader.model().wf(),
                read_lines(ObjModel::empty(), all, 0) == read_lines(reader.model(), all, i as int),
            decreases lines.len() - i,
        {
            proof {
                lemma_read_line(reader.model(), (i + 1) as usize, all[i as int]);
            }
            match reader.read_line(i + 1, lines[i].as_str()) {
                Ok(()) => {},
                Err(e) => {
                    return Err(e);
                },
            }
            i += 1;
        }
        Ok(
            Mesh {
                positions: reader.positions,
                normals: reader.normals,
                uvs: reader.uvs,
                vertices: reader.vertices,
                indices: reader.indices,
            },
        )
    }

    /// The positions of the file, in its order.
    pub fn positions(&self) -> (r: &Vec<Literal3>)
        ensures
            triples(r@) == self@.positions,
            self@.wf(),
    {
        proof {
            use_type_invariant(self);
        }
        &self.positions
    }

    /// The normals of the file, in its order.
    pub fn normals(&self) -> (r: &Vec<Literal3>)
        ensures
            triples(r@) == self@.normals,
            self@.wf(),
    {
        proof {
            use_type_invariant(self);
        }
        &self.normals
    }

    /// The texture coordinates of the file, in its order.
    pub fn uvs(&self) -> (r: &Vec<Literal2>)
        ensures
            pairs(r@) == self@.uvs,
            self@.wf(),
    {
        proof {
            use_type_invariant(self);
        }
        &self.uvs
    }

    /// The vertices, in the order in which their face corners first occur.
    pub fn vertices(&self) -> (r: &Vec<Vertex>)
        ensures
            r@ == self@.vertices,
            self@.wf(),
    {
        proof {
            use_type_invariant(self);
        }
        &self.vertices
    }

    /// The triangles: three places among the vertices each.
    pub fn indices(&self) -> (r: &Vec<u32>)
        ensures
            r@ == self@.indices,
            self@.wf(),
    {
        proof {
            use_type_invariant(self);
        }
        &self.indices
    }

    /// The number of triangles.
    pub fn triangle_count(&self) -> (n: usize)
        ensures
            n == self@.triangle_count(),
            3 * n == self@.indices.len(),
    {
        proof {
            use_type_invariant(self);
        }
        self.indices.len() / 3
    }

    /// The vertices of triangle `t`, by their places; `None` where the mesh
    /// has no such triangle. The three places are places of vertices that
    /// the mesh has.
    pub fn triangle(&self, t: usize) -> (r: Option<(usize, usize, usize)>)
        ensures
            t < self@.triangle_count() <==> r is Some,
            r matches Some(corners) ==> {
                &&& corners.0 == self@.indices[3 * t]
                &&& corners.1 == self@.indices[3 * t + 1]
                &&& corners.2 == self@.indices[3 * t + 2]
                &&& corners.0 < self@.vertices.len()
                &&& corners.1 < self@.vertices.len()
                &&& corners.2 < self@.vertices.len()
            },
    {
        proof {
            use_type_invariant(self);
        }
        if t < self.indices.len() / 3 {
            Some(
                (
                    self.indices[3 * t] as usize,
                    self.indices[3 * t + 1] as usize,
                    self.indices[3 * t + 2] as usize,
                ),
            )
        } else {
            None
        }
    }
}

} // verus!
