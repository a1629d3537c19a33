//! Turning parts into the vertices that a renderer draws.
//!
//! A primitive lists its vertices in the space of the part, before the
//! part's rotation is applied, together with that rotation; the renderer
//! applies the rotation to every vertex. Texture coordinates count sub-units
//! of a texel and come with the size of the texture they index, so that the
//! normalised coordinate is their quotient.

use crate::part::{Part, PartModel, Transform};
use crate::uv::{FaceUv, UvPoint};
use crate::vector::{Vector, UNIT};
use vstd::prelude::*;

verus! {

/// The largest nudge of a texture coordinate, in sub-units of a texel: the
/// one that still leaves every nudged coordinate within the machine's
/// integers.
pub const MAX_NUDGE: i64 = 0x7FFF_FFFF_FFFF_FFFF - 0xFFFF * UNIT;

/// A point of a texture, in sub-units of a texel from its top left corner.
#[derive(Clone, Copy, Debug, PartialEq, Eq, Structural)]
pub struct TextureCoordinate {
    pub u: i64,
    pub v: i64,
}

/// A corner of a quad: where it lies and which point of the texture it shows.
#[derive(Clone, Copy, Debug, PartialEq, Eq, Structural)]
pub struct Vertex {
    pub position: Vector,
    pub uv: TextureCoordinate,
}

/// Four vertices that span a flat face, and the direction the face looks in.
#[derive(Clone, Copy, Debug, PartialEq, Eq, Structural)]
pub struct Quad {
    pub top_left: Vertex,
    pub top_right: Vertex,
    pub bottom_left: Vertex,
    pub bottom_right: Vertex,
    pub normal: Vector,
}

/// The six faces of a box, in the order north, south, up, down, west, east.
#[derive(Debug)]
pub struct Cube {
    pub faces: Vec<Quad>,
}

/// A box or a single quad.
#[derive(Debug)]
pub enum PrimitiveDispatch {
    Cube(Cube),
    Quad(Quad),
}

/// What the renderer draws for one part: the primitive, the rotation to apply
/// to each of its vertices, and the size of the texture, in texels, that its
/// texture coordinates index.
#[derive(Debug)]
pub struct RenderPrimitive {
    pub primitive: PrimitiveDispatch,
    pub model_transform: Transform,
    pub texture_size: (u32, u32),
}

/// A texture point in sub-units, moved by `du` and `dv`.
pub open spec fn nudged_point(point: UvPoint, du: int, dv: int) -> (int, int) {
    (point.x * UNIT + du, point.y * UNIT + dv)
}

/// `coordinate` is `point` in sub-units, moved by `du` and `dv`.
pub open spec fn is_nudged(coordinate: TextureCoordinate, point: UvPoint, du: int, dv: int) -> bool {
    coordinate.u == point.x * UNIT + du && coordinate.v == point.y * UNIT + dv
}

/// The four corners are those of `face`, in the order top left, top right,
/// bottom left, bottom right, each moved towards the inside of the rectangle
/// by `nudge`: right and down at the top left, left and down at the top
/// right, right and up at the bottom left, left and up at the bottom right.
pub open spec fn are_corners_of(corners: [TextureCoordinate; 4], face: FaceUv, nudge: int) -> bool {
    &&& is_nudged(corners[0], face.top_left, nudge, nudge)
    &&& is_nudged(corners[1], face.top_right, -nudge, nudge)
    &&& is_nudged(corners[2], face.bottom_left, nudge, -nudge)
    &&& is_nudged(corners[3], face.bottom_right, -nudge, -nudge)
}

fn nudged(point: UvPoint, du: i64, dv: i64) -> (coordinate: TextureCoordinate)
    requires
        -MAX_NUDGE <= du <= MAX_NUDGE,
        -MAX_NUDGE <= dv <= MAX_NUDGE,
    ensures
        is_nudged(coordinate, point, du as int, dv as int),
{
    TextureCoordinate { u: (point.x as i64) * UNIT + du, v: (point.y as i64) * UNIT + dv }
}

/// The texture coordinates of the corners of a face, each moved inwards by
/// `nudge` sub-units to keep the face clear of the texels beside it.
pub fn uv(face_uvs: &FaceUv, nudge: i64) -> (corners: [TextureCoordinate; 4])
    requires
        0 <= nudge <= MAX_NUDGE,
    ensures
        are_corners_of(corners, *face_uvs, nudge as int),
{
    [
        nudged(face_uvs.top_left, nudge, nudge),
        nudged(face_uvs.top_right, -nudge, nudge),
        nudged(face_uvs.bottom_left, nudge, -nudge),
        nudged(face_uvs.bottom_right, -nudge, -nudge),
    ]
}

/// A face of a box.
#[derive(Clone, Copy, Debug, PartialEq, Eq, Structural)]
pub enum Face {
    North,
    South,
    Up,
    Down,
    West,
    East,
}

/// The far corner of a box: its position plus its size.
pub open spec fn far_corner(position: Vector, size: Vector) -> (int, int, int) {
    (position.x + size.x, position.y + size.y, position.z + size.z)
}

/// `v` lies at the given coordinates.
pub open spec fn lies_at(v: Vector, x: int, y: int, z: int) -> bool {
    v.x == x && v.y == y && v.z == z
}

/// The quad spans the given face of the box between `low` and `high`. The
/// corners are named as the face is seen from outside the box, with +Y up on
/// the four sides and north up on the top and the bottom; the normal points
/// out of the box and is one unit long.
pub open spec fn spans_face(quad: Quad, face: Face, low: Vector, high: (int, int, int)) -> bool {
    let (hx, hy, hz) = high;
    let (lx, ly, lz) = (low.x as int, low.y as int, low.z as int);
    match face {
        Face::North => {
            &&& lies_at(quad.top_left.position, hx, hy, lz)
            &&& lies_at(quad.top_right.position, lx, hy, lz)
            &&& lies_at(quad.bottom_left.position, hx, ly, lz)
            &&& lies_at(quad.bottom_right.position, lx, ly, lz)
            &&& lies_at(quad.normal, 0, 0, -UNIT)
        },
        Face::South => {
            &&& lies_at(quad.top_left.position, lx, hy, hz)
            &&& lies_at(quad.top_right.position, hx, hy, hz)
            &&& lies_at(quad.bottom_left.position, lx, ly, hz)
            &&& lies_at(quad.bottom_right.position, hx, ly, hz)
            &&& lies_at(quad.normal, 0, 0, UNIT as int)
        },
        Face::Up => {
            &&& lies_at(quad.top_left.position, lx, hy, lz)
            &&& lies_at(quad.top_right.position, hx, hy, lz)
            &&& lies_at(quad.bottom_left.position, lx, hy, hz)
            &&& lies_at(quad.bottom_right.position, hx, hy, hz)
            &&& lies_at(quad.normal, 0, UNIT as int, 0)
        },
        Face::Down => {
            &&& lies_at(quad.top_left.position, hx, ly, lz)
            &&& lies_at(quad.top_right.position, lx, ly, lz)
            &&& lies_at(quad.bottom_left.position, hx, ly, hz)
            &&& lies_at(quad.bottom_right.position, lx, ly, hz)
            &&& lies_at(quad.normal, 0, -UNIT, 0)
        },
        Face::West => {
            &&& lies_at(quad.top_left.position, lx, hy, lz)
            &&& lies_at(quad.top_right.position, lx, hy, hz)
            &&& lies_at(quad.bottom_left.position, lx, ly, lz)
            &&& lies_at(quad.bottom_right.position, lx, ly, hz)
            &&& lies_at(quad.normal, -UNIT, 0, 0)
        },
        Face::East => {
            &&& lies_at(quad.top_left.position, hx, hy, hz)
            &&& lies_at(quad.top_right.position, hx, hy, lz)
            &&& lies_at(quad.bottom_left.position, hx, ly, hz)
            &&& lies_at(quad.bottom_right.position, hx, ly, lz)
            &&& lies_at(quad.normal, UNIT as int, 0, 0)
        },
    }
}

/// The corners of the quad show the corners of `face`, nudged inwards.
pub open spec fn shows(quad: Quad, face: FaceUv, nudge: int) -> bool {
    &&& is_nudged(quad.top_left.uv, face.top_left, nudge, nudge)
    &&& is_nudged(quad.top_right.uv, face.top_right, -nudge, nudge)
    &&& is_nudged(quad.bottom_left.uv, face.bottom_left, nudge, -nudge)
    &&& is_nudged(quad.bottom_right.uv, face.bottom_right, -nudge, -nudge)
}

/// The quad of a flat part: it spans the part from its position to its far
/// corner, top edge at the back and bottom edge at the front.
pub open spec fn spans_part(quad: Quad, position: Vector, size: Vector, normal: Vector) -> bool {
    let (hx, hy, hz) = far_corner(position, size);
    &&& lies_at(quad.top_left.position, position.x as int, hy, position.z as int)
    &&& lies_at(quad.top_right.position, hx, hy, position.z as int)
    &&& lies_at(quad.bottom_left.position, position.x as int, position.y as int, hz)
    &&& lies_at(quad.bottom_right.position, hx, position.y as int, hz)
    &&& quad.normal == normal
}

/// The primitive is what `part` converts to with the given nudge.
pub open spec fn is_conversion_of(primitive: RenderPrimitive, part: PartModel, nudge: int) -> bool {
    &&& primitive.model_transform@ == part.rotation()
    &&& primitive.texture_size == part.texture().spec_texture_size()
    &&& match part {
        PartModel::Cube { position, size, face_uvs, .. } => {
            let high = far_corner(position, size);
            &&& primitive.primitive matches PrimitiveDispatch::Cube(cube)
            &&& cube.faces@.len() == 6
            &&& spans_face(cube.faces@[0], Face::North, position, high)
            &&& shows(cube.faces@[0], face_uvs.north, nudge)
            &&& spans_face(cube.faces@[1], Face::South, position, high)
            &&& shows(cube.faces@[1], face_uvs.south, nudge)
            &&& spans_face(cube.faces@[2], Face::Up, position, high)
            &&& shows(cube.faces@[2], face_uvs.up, nudge)
            &&& spans_face(cube.faces@[3], Face::Down, position, high)
            &&& shows(cube.faces@[3], face_uvs.down.flipped_horizontally(), nudge)
            &&& spans_face(cube.faces@[4], Face::West, position, high)
            &&& shows(cube.faces@[4], face_uvs.west, nudge)
            &&& spans_face(cube.faces@[5], Face::East, position, high)
            &&& shows(cube.faces@[5], face_uvs.east, nudge)
        },
        PartModel::Quad { position, size, face_uv, normal, .. } => {
            &&& primitive.primitive matches PrimitiveDispatch::Quad(quad)
            &&& spans_part(quad, position, size, normal)
            &&& shows(quad, face_uv, nudge)
        },
    }
}

/// The corners of a quad in the order top left, top right, bottom left,
/// bottom right.
pub open spec fn corner_of(quad: Quad, corner: int) -> Vertex {
    if corner == 0 {
        quad.top_left
    } else if corner == 1 {
        quad.top_right
    } else if corner == 2 {
        quad.bottom_left
    } else {
        quad.bottom_right
    }
}

impl PrimitiveDispatch {
    /// How many quads the primitive is made of.
    pub open spec fn quad_count(self) -> nat {
        match self {
            PrimitiveDispatch::Cube(cube) => cube.faces@.len(),
            PrimitiveDispatch::Quad(_) => 1,
        }
    }

    /// How many vertices the primitive has: four for each quad.
    pub open spec fn vertex_count(self) -> nat {
        4 * self.quad_count()
    }

    /// The quad of the given index.
    pub open spec fn quad_at(self, index: int) -> Quad {
        match self {
            PrimitiveDispatch::Cube(cube) => cube.faces@[index],
            PrimitiveDispatch::Quad(quad) => quad,
        }
    }

    /// The vertices of the primitive, quad after quad, each quad in the order
    /// top left, top right, bottom left, bottom right.
    pub fn vertices(&self) -> (vertices: Vec<Vertex>)
        ensures
            vertices@.len() == self.vertex_count(),
            forall|i: int|
                0 <= i < vertices@.len() ==> #[trigger] vertices@[i] == corner_of(
                    self.quad_at(i / 4),
                    i % 4,
                ),
    {
        let mut vertices: Vec<Vertex> = Vec::new();
        match self {
            PrimitiveDispatch::Quad(quad) => {
                vertices.push(quad.top_left);
                vertices.push(quad.top_right);
                vertices.push(quad.bottom_left);
                vertices.push(quad.bottom_right);
            },
            PrimitiveDispatch::Cube(cube) => {
                let mut k: usize = 0;
                while k < cube.faces.len()
                    invariant
                        k <= cube.faces.len(),
                        vertices@.len() == 4 * k,
                        forall|i: int|
                            0 <= i < vertices@.len() ==> #[trigger] vertices@[i] == corner_of(
                                cube.faces@[i / 4],
                                i % 4,
                            ),
                    decreases cube.faces.len() - k,
                {
                    let quad = cube.faces[k];
                    vertices.push(quad.top_left);
                    vertices.push(quad.top_right);
                    vertices.push(quad.bottom_left);
                    vertices.push(quad.bottom_right);
                    k += 1;
                }
            },
        }
        vertices
    }
}

fn face_quad(
    corners: [TextureCoordinate; 4],
    top_left: Vector,
    top_right: Vector,
    bottom_left: Vector,
    bottom_right: Vector,
    normal: Vector,
) -> (quad: Quad)
    ensures
        quad == (Quad {
            top_left: Vertex { position: top_left, uv: corners[0] },
            top_right: Vertex { position: top_right, uv: corners[1] },
            bottom_left: Vertex { position: bottom_left, uv: corners[2] },
            bottom_right: Vertex { position: bottom_right, uv: corners[3] },
            normal,
        }),
{
    Quad {
        top_left: Vertex { position: top_left, uv: corners[0] },
        top_right: Vertex { position: top_right, uv: corners[1] },
        bottom_left: Vertex { position: bottom_left, uv: corners[2] },
        bottom_right: Vertex { position: bottom_right, uv: corners[3] },
        normal,
    }
}

/// Converts a part into the primitive that a renderer draws, with texture
/// coordinates moved inwards by `nudge` sub-units of a texel.
///
/// A box gives six quads, one for each face, with the rectangle of the face
/// from the part's texture; the rectangle of the bottom face is flipped
/// horizontally first, because the bottom is seen mirrored. A flat part
/// gives one quad.
pub fn primitive_convert_nudged(part: &Part, nudge: i64) -> (primitive: RenderPrimitive)
    requires
        part@.wf(),
        0 <= nudge <= MAX_NUDGE,
    ensures
        is_conversion_of(primitive, part@, nudge as int),
        part@.is_cube() ==> primitive.primitive.quad_count() == 6
            && primitive.primitive.vertex_count() == 24,
        !part@.is_cube() ==> primitive.primitive.quad_count() == 1
            && primitive.primitive.vertex_count() == 4,
{
    let position = part.get_position();
    let size = part.get_size();
    let model_transform = part.get_rotation_matrix();
    let texture_size = part.get_texture().get_texture_size();
    let lx = position.x;
    let ly = position.y;
    let lz = position.z;
    let hx = position.x + size.x;
    let hy = position.y + size.y;
    let hz = position.z + size.z;
    let primitive = match part {
        Part::Cube { face_uvs, .. } => {
            let mut faces: Vec<Quad> = Vec::new();
            faces.push(
                face_quad(
                    uv(&face_uvs.north, nudge),
                    Vector::new(hx, hy, lz),
                    Vector::new(lx, hy, lz),
                    Vector::new(hx, ly, lz),
                    Vector::new(lx, ly, lz),
                    Vector::new(0, 0, -UNIT),
                ),
            );
            faces.push(
                face_quad(
                    uv(&face_uvs.south, nudge),
                    Vector::new(lx, hy, hz),
                    Vector::new(hx, hy, hz),
                    Vector::new(lx, ly, hz),
                    Vector::new(hx, ly, hz),
                    Vector::new(0, 0, UNIT),
                ),
            );
            faces.push(
                face_quad(
                    uv(&face_uvs.up, nudge),
                    Vector::new(lx, hy, lz),
                    Vector::new(hx, hy, lz),
                    Vector::new(lx, hy, hz),
                    Vector::new(hx, hy, hz),
                    Vector::new(0, UNIT, 0),
                ),
            );
            faces.push(
                face_quad(
                    uv(&face_uvs.down.flip_horizontally(), nudge),
                    Vector::new(hx, ly, lz),
                    Vector::new(lx, ly, lz),
                    Vector::new(hx, ly, hz),
                    Vector::new(lx, ly, hz),
                    Vector::new(0, -UNIT, 0),
                ),
            );
            faces.push(
                face_quad(
                    uv(&face_uvs.west, nudge),
                    Vector::new(lx, hy, lz),
                    Vector::new(lx, hy, hz),
                    Vector::new(lx, ly, lz),
                    Vector::new(lx, ly, hz),
                    Vector::new(-UNIT, 0, 0),
                ),
            );
            faces.push(
                face_quad(
                    uv(&face_uvs.east, nudge),
                    Vector::new(hx, hy, hz),
                    Vector::new(hx, hy, lz),
                    Vector::new(hx, ly, hz),
                    Vector::new(hx, ly, lz),
                    Vector::new(UNIT, 0, 0),
                ),
            );
            PrimitiveDispatch::Cube(Cube { faces })
        },
        Part::Quad { face_uv, normal, .. } => {
            PrimitiveDispatch::Quad(
                face_quad(
                    uv(face_uv, nudge),
                    Vector::new(lx, hy, lz),
                    Vector::new(hx, hy, lz),
                    Vector::new(lx, ly, hz),
                    Vector::new(hx, ly, hz),
                    *normal,
                ),
            )
        },
    };
    RenderPrimitive { primitive, model_transform, texture_size }
}

/// Converts a part into the primitive that a renderer draws, with the
/// texture coordinates left exactly on the corners of each face.
pub fn primitive_convert(part: &Part) -> (primitive: RenderPrimitive)
    requires
        part@.wf(),
    ensures
        is_conversion_of(primitive, part@, 0),
        part@.is_cube() ==> primitive.primitive.quad_count() == 6
            && primitive.primitive.vertex_count() == 24,
        !part@.is_cube() ==> primitive.primitive.quad_count() == 1
            && primitive.primitive.vertex_count() == 4,
{
    primitive_convert_nudged(part, 0)
}

} // verus!
