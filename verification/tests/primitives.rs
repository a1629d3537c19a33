use nmsr_core::part::{Part, PartAnchorInfo, Rotation};
use nmsr_core::primitives::{
    primitive_convert, primitive_convert_nudged, uv, PrimitiveDispatch, Quad, TextureCoordinate,
    Vertex,
};
use nmsr_core::types::PlayerPartTextureType;
use nmsr_core::uv::{CubeFaceUvs, FaceUv};
use nmsr_core::vector::{Vector, UNIT};

fn faces() -> CubeFaceUvs {
    CubeFaceUvs {
        north: FaceUv::from_rectangle(8, 8, 16, 16),
        south: FaceUv::from_rectangle(24, 8, 32, 16),
        east: FaceUv::from_rectangle(0, 8, 8, 16),
        west: FaceUv::from_rectangle(16, 8, 24, 16),
        up: FaceUv::from_rectangle(8, 0, 16, 8),
        down: FaceUv::from_rectangle(16, 0, 24, 8),
    }
}

fn body() -> Part {
    Part::new_cube(PlayerPartTextureType::Skin, [-4, 12, -2], [8, 12, 4], faces())
}

fn at(x: i64, y: i64, z: i64) -> Vector {
    Vector::new(x * UNIT, y * UNIT, z * UNIT)
}

fn texel(u: i64, v: i64) -> TextureCoordinate {
    TextureCoordinate { u: u * UNIT, v: v * UNIT }
}

fn cube_faces(part: &Part) -> Vec<Quad> {
    match primitive_convert(part).primitive {
        PrimitiveDispatch::Cube(cube) => cube.faces,
        PrimitiveDispatch::Quad(_) => panic!("a box converts to a cube"),
    }
}

#[test]
fn a_cube_converts_to_six_quads_and_twenty_four_vertices() {
    let sizes = [[8, 12, 4], [0, 0, 0], [1, 1, 1], [u32::MAX, 3, 9]];
    for size in sizes {
        let mut part = Part::new_cube(PlayerPartTextureType::Skin, [-4, 12, -2], size, faces());
        part.rotate(Vector::new(10 * UNIT, 20 * UNIT, 30 * UNIT), None);
        let converted = primitive_convert(&part);
        assert_eq!(converted.primitive.vertices().len(), 24);
        match converted.primitive {
            PrimitiveDispatch::Cube(cube) => assert_eq!(cube.faces.len(), 6),
            PrimitiveDispatch::Quad(_) => panic!("a box converts to a cube"),
        }
    }
}

#[test]
fn a_quad_converts_to_four_vertices() {
    let sizes = [[10, 16, 0], [0, 0, 0], [3, 3, 3]];
    for size in sizes {
        let mut part = Part::new_quad(
            PlayerPartTextureType::Cape,
            [-5 * UNIT, 8 * UNIT, 2 * UNIT],
            size,
            FaceUv::from_rectangle(1, 1, 11, 17),
            Vector::new(0, 0, UNIT),
        );
        part.rotate(Vector::new(0, 180 * UNIT, 0), None);
        let converted = primitive_convert(&part);
        assert_eq!(converted.primitive.vertices().len(), 4);
        assert!(matches!(converted.primitive, PrimitiveDispatch::Quad(_)));
    }
}

#[test]
fn the_faces_of_a_cube_span_the_box() {
    let quads = cube_faces(&body());
    let north = quads[0];
    assert_eq!(north.top_left.position, at(4, 24, -2));
    assert_eq!(north.top_right.position, at(-4, 24, -2));
    assert_eq!(north.bottom_left.position, at(4, 12, -2));
    assert_eq!(north.bottom_right.position, at(-4, 12, -2));
    assert_eq!(north.normal, at(0, 0, -1));
    let south = quads[1];
    assert_eq!(south.top_left.position, at(-4, 24, 2));
    assert_eq!(south.top_right.position, at(4, 24, 2));
    assert_eq!(south.bottom_left.position, at(-4, 12, 2));
    assert_eq!(south.bottom_right.position, at(4, 12, 2));
    assert_eq!(south.normal, at(0, 0, 1));
    let up = quads[2];
    assert_eq!(up.top_left.position, at(-4, 24, -2));
    assert_eq!(up.top_right.position, at(4, 24, -2));
    assert_eq!(up.bottom_left.position, at(-4, 24, 2));
    assert_eq!(up.bottom_right.position, at(4, 24, 2));
    assert_eq!(up.normal, at(0, 1, 0));
    let down = quads[3];
    assert_eq!(down.top_left.position, at(4, 12, -2));
    assert_eq!(down.top_right.position, at(-4, 12, -2));
    assert_eq!(down.bottom_left.position, at(4, 12, 2));
    assert_eq!(down.bottom_right.position, at(-4, 12, 2));
    assert_eq!(down.normal, at(0, -1, 0));
    let west = quads[4];
    assert_eq!(west.top_left.position, at(-4, 24, -2));
    assert_eq!(west.top_right.position, at(-4, 24, 2));
    assert_eq!(west.bottom_left.position, at(-4, 12, -2));
    assert_eq!(west.bottom_right.position, at(-4, 12, 2));
    assert_eq!(west.normal, at(-1, 0, 0));
    let east = quads[5];
    assert_eq!(east.top_left.position, at(4, 24, 2));
    assert_eq!(east.top_right.position, at(4, 24, -2));
    assert_eq!(east.bottom_left.position, at(4, 12, 2));
    assert_eq!(east.bottom_right.position, at(4, 12, -2));
    assert_eq!(east.normal, at(1, 0, 0));
}

#[test]
fn every_face_shows_its_rectangle_and_the_bottom_shows_it_flipped() {
    let quads = cube_faces(&body());
    let north = quads[0];
    assert_eq!(north.top_left.uv, texel(8, 8));
    assert_eq!(north.top_right.uv, texel(16, 8));
    assert_eq!(north.bottom_left.uv, texel(8, 16));
    assert_eq!(north.bottom_right.uv, texel(16, 16));
    assert_eq!(quads[1].top_left.uv, texel(24, 8));
    assert_eq!(quads[1].bottom_right.uv, texel(32, 16));
    assert_eq!(quads[2].top_left.uv, texel(8, 0));
    assert_eq!(quads[2].bottom_right.uv, texel(16, 8));
    let down = quads[3];
    assert_eq!(down.top_left.uv, texel(24, 0));
    assert_eq!(down.top_right.uv, texel(16, 0));
    assert_eq!(down.bottom_left.uv, texel(24, 8));
    assert_eq!(down.bottom_right.uv, texel(16, 8));
    assert_eq!(quads[4].top_left.uv, texel(16, 8));
    assert_eq!(quads[4].bottom_right.uv, texel(24, 16));
    assert_eq!(quads[5].top_left.uv, texel(0, 8));
    assert_eq!(quads[5].bottom_right.uv, texel(8, 16));
}

#[test]
fn a_flat_part_spans_from_its_position_to_its_far_corner() {
    let part = Part::new_quad(
        PlayerPartTextureType::Cape,
        [-5 * UNIT, 8 * UNIT + 512, 2 * UNIT],
        [10, 16, 1],
        FaceUv::from_rectangle(1, 1, 11, 17),
        Vector::new(0, 0, UNIT),
    );
    let converted = primitive_convert(&part);
    assert_eq!(converted.texture_size, (64, 32));
    assert!(converted.model_transform.steps.is_empty());
    match converted.primitive {
        PrimitiveDispatch::Quad(quad) => {
            assert_eq!(quad.top_left.position, Vector::new(-5120, 25088, 2048));
            assert_eq!(quad.top_right.position, Vector::new(5120, 25088, 2048));
            assert_eq!(quad.bottom_left.position, Vector::new(-5120, 8704, 3072));
            assert_eq!(quad.bottom_right.position, Vector::new(5120, 8704, 3072));
            assert_eq!(quad.top_left.uv, texel(1, 1));
            assert_eq!(quad.top_right.uv, texel(11, 1));
            assert_eq!(quad.bottom_left.uv, texel(1, 17));
            assert_eq!(quad.bottom_right.uv, texel(11, 17));
            assert_eq!(quad.normal, Vector::new(0, 0, 1024));
        }
        PrimitiveDispatch::Cube(_) => panic!("a flat part converts to a quad"),
    }
}

#[test]
fn the_conversion_hands_the_rotation_on_and_leaves_the_vertices_unrotated() {
    let mut part = body();
    let anchor = PartAnchorInfo::new_rotation_anchor_position(at(0, 24, 0));
    part.rotate(Vector::new(0, 0, 10 * UNIT), Some(anchor));
    let converted = primitive_convert(&part);
    assert_eq!(converted.texture_size, (64, 64));
    assert_eq!(
        converted.model_transform.steps,
        vec![Rotation { angles: Vector::new(0, 0, 10 * UNIT), pivot: at(0, 24, 0) }]
    );
    assert_eq!(cube_faces(&part), cube_faces(&body()));
}

#[test]
fn a_nudge_moves_every_corner_inwards() {
    let face = FaceUv::from_rectangle(8, 8, 16, 16);
    assert_eq!(uv(&face, 0), [texel(8, 8), texel(16, 8), texel(8, 16), texel(16, 16)]);
    assert_eq!(
        uv(&face, 32),
        [
            TextureCoordinate { u: 8224, v: 8224 },
            TextureCoordinate { u: 16352, v: 8224 },
            TextureCoordinate { u: 8224, v: 16352 },
            TextureCoordinate { u: 16352, v: 16352 },
        ]
    );
    let nudged = match primitive_convert_nudged(&body(), 32).primitive {
        PrimitiveDispatch::Cube(cube) => cube.faces,
        PrimitiveDispatch::Quad(_) => panic!("a box converts to a cube"),
    };
    assert_eq!(nudged[0].top_left.uv, TextureCoordinate { u: 8224, v: 8224 });
    assert_eq!(nudged[3].top_left.uv, TextureCoordinate { u: 24 * 1024 + 32, v: 32 });
    assert_eq!(nudged[3].top_right.uv, TextureCoordinate { u: 16 * 1024 - 32, v: 32 });
    assert_eq!(nudged[0].top_left.position, at(4, 24, -2));
}

#[test]
fn the_vertices_come_quad_after_quad() {
    let converted = primitive_convert(&body());
    let vertices = converted.primitive.vertices();
    let quads = cube_faces(&body());
    for (index, quad) in quads.iter().enumerate() {
        assert_eq!(vertices[4 * index], quad.top_left);
        assert_eq!(vertices[4 * index + 1], quad.top_right);
        assert_eq!(vertices[4 * index + 2], quad.bottom_left);
        assert_eq!(vertices[4 * index + 3], quad.bottom_right);
    }
    assert_eq!(vertices[0], Vertex { position: at(4, 24, -2), uv: texel(8, 8) });
    assert_eq!(vertices[23], Vertex { position: at(4, 12, -2), uv: texel(8, 16) });
}

#[test]
fn an_expanded_cube_converts_around_the_same_center() {
    let grown = body().expand_splat(UNIT / 2);
    let quads = cube_faces(&grown);
    assert_eq!(quads[0].top_left.position, Vector::new(4608, 25088, -2560));
    assert_eq!(quads[0].bottom_right.position, Vector::new(-4608, 11776, -2560));
    assert_eq!(quads[1].bottom_right.position, Vector::new(4608, 11776, 2560));
}
