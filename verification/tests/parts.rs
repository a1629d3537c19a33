use glam::{EulerRot, Mat4, Quat, Vec3};
use nmsr_core::part::{Part, PartAnchorInfo, Rotation, Transform};
use nmsr_core::types::PlayerPartTextureType;
use nmsr_core::uv::{CubeFaceUvs, FaceUv};
use nmsr_core::vector::{Vector, UNIT};

fn faces() -> CubeFaceUvs {
    CubeFaceUvs {
        north: FaceUv::from_rectangle(8, 8, 16, 16),
        south: FaceUv::from_rectangle(24, 8, 32, 16),
        east: FaceUv::from_rectangle(0, 8, 8, 16),
        west: FaceUv::from_rectangle(16, 8, 24, 16),
        up: FaceUv::from_rectangle(8, 0, 16, 8),
        down: FaceUv::from_rectangle(16, 0, 24, 8),
    }
}

fn head() -> Part {
    Part::new_cube(PlayerPartTextureType::Skin, [-4, 24, -4], [8, 8, 8], faces())
}

fn cape() -> Part {
    Part::new_quad(
        PlayerPartTextureType::Cape,
        [-5 * UNIT, 8 * UNIT + UNIT / 2, 2 * UNIT],
        [10, 16, 0],
        FaceUv::from_rectangle(1, 1, 11, 17),
        Vector::new(0, 0, UNIT),
    )
}

fn doubled_center(part: &Part) -> (i64, i64, i64) {
    let position = part.get_position();
    let size = part.get_size();
    (2 * position.x + size.x, 2 * position.y + size.y, 2 * position.z + size.z)
}

fn degrees(x: i64, y: i64, z: i64) -> Vector {
    Vector::new(x * UNIT, y * UNIT, z * UNIT)
}

fn to_float(value: i64) -> f32 {
    value as f32 / UNIT as f32
}

fn to_vec3(v: Vector) -> Vec3 {
    Vec3::new(to_float(v.x), to_float(v.y), to_float(v.z))
}

/// The matrix that a transform stands for: every rotation turns around its
/// pivot, and a later rotation stands to the left of the earlier ones.
fn matrix_of(transform: &Transform) -> Mat4 {
    let mut matrix = Mat4::IDENTITY;
    for step in &transform.steps {
        let pivot = to_vec3(step.pivot);
        let turn = Mat4::from_quat(Quat::from_euler(
            EulerRot::YXZ,
            to_float(step.angles.y).to_radians(),
            to_float(step.angles.x).to_radians(),
            to_float(step.angles.z).to_radians(),
        ));
        matrix = Mat4::from_translation(pivot) * turn * Mat4::from_translation(-pivot) * matrix;
    }
    matrix
}

#[test]
fn a_new_cube_stands_where_it_was_put_and_is_not_rotated() {
    let part = head();
    assert_eq!(part.get_position(), Vector::new(-4096, 24576, -4096));
    assert_eq!(part.get_size(), Vector::new(8192, 8192, 8192));
    assert_eq!(part.get_texture(), PlayerPartTextureType::Skin);
    assert_eq!(part.get_face_uvs(), faces());
    assert!(part.get_rotation_matrix().steps.is_empty());
    assert!(matches!(part, Part::Cube { .. }));
    assert!(part.is_wf());
}

#[test]
fn a_new_cube_takes_the_largest_coordinates() {
    let part = Part::new_cube(
        PlayerPartTextureType::Skin,
        [i32::MIN, i32::MAX, 0],
        [u32::MAX, 0, 1],
        faces(),
    );
    assert_eq!(
        part.get_position(),
        Vector::new(i32::MIN as i64 * 1024, i32::MAX as i64 * 1024, 0)
    );
    assert_eq!(part.get_size(), Vector::new(u32::MAX as i64 * 1024, 0, 1024));
    assert!(part.is_wf());
}

#[test]
fn a_new_quad_keeps_its_fractional_position_and_its_normal() {
    let part = cape();
    assert_eq!(part.get_position(), Vector::new(-5120, 8704, 2048));
    assert_eq!(part.get_size(), Vector::new(10240, 16384, 0));
    assert_eq!(part.get_texture(), PlayerPartTextureType::Cape);
    assert!(part.get_rotation_matrix().steps.is_empty());
    match part {
        Part::Quad { face_uv, normal, .. } => {
            assert_eq!(face_uv, FaceUv::from_rectangle(1, 1, 11, 17));
            assert_eq!(normal, Vector::new(0, 0, 1024));
        }
        Part::Cube { .. } => panic!("a quad was made"),
    }
}

#[test]
fn expanding_a_cube_keeps_its_center() {
    let part = head();
    let amounts = [
        Vector::new(0, 0, 0),
        Vector::new(512, 512, 512),
        Vector::new(1, 2048, 77),
        Vector::new(256, 0, 1024 * 1000),
    ];
    for amount in amounts {
        assert!(part.fits_expansion(amount));
        let grown = part.expand(amount);
        assert_eq!(doubled_center(&grown), doubled_center(&part));
        assert_eq!(
            grown.get_size(),
            Vector::new(8192 + 2 * amount.x, 8192 + 2 * amount.y, 8192 + 2 * amount.z)
        );
        assert_eq!(
            grown.get_position(),
            Vector::new(-4096 - amount.x, 24576 - amount.y, -4096 - amount.z)
        );
        assert_eq!(grown.get_face_uvs(), faces());
        assert_eq!(grown.get_texture(), PlayerPartTextureType::Skin);
    }
    assert_eq!(part.get_size(), Vector::new(8192, 8192, 8192));
}

#[test]
fn expanding_a_quad_keeps_its_position() {
    let part = cape();
    let grown = part.expand(Vector::new(512, 256, 0));
    assert_eq!(grown.get_position(), part.get_position());
    assert_eq!(grown.get_size(), Vector::new(10240 + 1024, 16384 + 512, 0));
}

#[test]
fn expand_splat_grows_every_axis_alike() {
    let grown = head().expand_splat(256);
    assert_eq!(grown.get_size(), Vector::new(8704, 8704, 8704));
    assert_eq!(grown.get_position(), Vector::new(-4352, 24320, -4352));
    assert_eq!(doubled_center(&grown), doubled_center(&head()));
}

#[test]
fn a_part_can_shrink_but_not_below_nothing() {
    let part = head();
    assert!(part.fits_expansion(Vector::splat(-4096)));
    let flat = part.expand(Vector::splat(-4096));
    assert_eq!(flat.get_size(), Vector::new(0, 0, 0));
    assert_eq!(doubled_center(&flat), doubled_center(&part));
    assert!(!part.fits_expansion(Vector::splat(-4097)));
    assert!(!part.fits_expansion(Vector::new(0, i64::MAX / 2, 0)));
    assert!(!part.fits_expansion(Vector::new(i64::MAX, 0, 0)));
    assert!(!part.fits_expansion(Vector::new(0, 0, i64::MIN)));
    let most = (i64::MAX - 8192) / 2;
    assert!(part.fits_expansion(Vector::new(most, 0, 0)));
    let huge = part.expand(Vector::new(most, 0, 0));
    assert_eq!(huge.get_size().x, i64::MAX - 1);
    assert_eq!(doubled_center(&part).0, -4096 * 2 + 8192);
    assert_eq!(huge.get_position().x as i128 * 2 + huge.get_size().x as i128, 0);
    assert!(!part.fits_expansion(Vector::new(most + 1, 0, 0)));
}

#[test]
fn anchors_add_up() {
    let a = PartAnchorInfo {
        rotation_anchor: Vector::new(1, 2, 3),
        translation_anchor: Vector::new(10, 20, 30),
    };
    let b = PartAnchorInfo {
        rotation_anchor: Vector::new(-5, 7, 100),
        translation_anchor: Vector::new(4, 4, 4),
    };
    let turned = a.with_rotation_anchor(b.rotation_anchor);
    assert_eq!(turned.rotation_anchor, Vector::new(-4, 9, 103));
    assert_eq!(turned.translation_anchor, Vector::new(10, 20, 30));
    assert_eq!(
        b.with_rotation_anchor(a.rotation_anchor).rotation_anchor,
        turned.rotation_anchor
    );
    let moved = a.with_translation_anchor(b.translation_anchor);
    assert_eq!(moved.translation_anchor, Vector::new(14, 24, 34));
    assert_eq!(moved.rotation_anchor, Vector::new(1, 2, 3));
    let twice = a.with_rotation_anchor(b.rotation_anchor).with_rotation_anchor(b.rotation_anchor);
    assert_eq!(twice.rotation_anchor, Vector::new(-9, 16, 203));
}

#[test]
fn the_default_anchor_is_the_origin() {
    let anchor = PartAnchorInfo::default();
    assert_eq!(anchor.rotation_anchor, Vector::new(0, 0, 0));
    assert_eq!(anchor.translation_anchor, Vector::new(0, 0, 0));
    let pivot = PartAnchorInfo::new_rotation_anchor_position(Vector::new(5, 6, 7));
    assert_eq!(pivot.rotation_anchor, Vector::new(5, 6, 7));
    assert_eq!(pivot.translation_anchor, Vector::new(0, 0, 0));
    let at_head = PartAnchorInfo::new_part_anchor_translate(&head());
    assert_eq!(at_head.rotation_anchor, Vector::new(-4096, 24576, -4096));
    assert_eq!(at_head.translation_anchor, Vector::new(-4096, 24576, -4096));
}

#[test]
fn rotate_moves_by_the_translation_and_adds_a_rotation_around_the_pivot() {
    let mut part = head();
    let anchor = PartAnchorInfo {
        rotation_anchor: Vector::new(0, 24 * UNIT, 0),
        translation_anchor: Vector::new(UNIT, 0, -2 * UNIT),
    };
    assert!(part.fits_rotation(Some(anchor)));
    part.rotate(degrees(10, 0, 0), Some(anchor));
    assert_eq!(part.get_position(), Vector::new(-3072, 24576, -6144));
    assert_eq!(part.get_size(), Vector::new(8192, 8192, 8192));
    assert_eq!(
        part.get_rotation_matrix().steps,
        vec![Rotation { angles: degrees(10, 0, 0), pivot: Vector::new(0, 24 * UNIT, 0) }]
    );
    part.rotate(degrees(0, 45, 0), None);
    assert_eq!(part.get_position(), Vector::new(-3072, 24576, -6144));
    assert_eq!(
        part.get_rotation_matrix().steps,
        vec![
            Rotation { angles: degrees(10, 0, 0), pivot: Vector::new(0, 24 * UNIT, 0) },
            Rotation { angles: degrees(0, 45, 0), pivot: Vector::new(0, 0, 0) },
        ]
    );
    assert_eq!(part.get_face_uvs(), faces());
}

#[test]
fn rotate_refuses_a_translation_beyond_the_limit() {
    let part = head();
    let far = PartAnchorInfo {
        rotation_anchor: Vector::new(0, 0, 0),
        translation_anchor: Vector::new(i64::MAX - 4096, 0, 0),
    };
    assert!(part.fits_rotation(Some(far)));
    let too_far = PartAnchorInfo {
        rotation_anchor: Vector::new(0, 0, 0),
        translation_anchor: Vector::new(i64::MAX - 4095, 0, 0),
    };
    assert!(!part.fits_rotation(Some(too_far)));
    let too_low = PartAnchorInfo {
        rotation_anchor: Vector::new(0, 0, 0),
        translation_anchor: Vector::new(0, i64::MIN, 0),
    };
    assert!(part.fits_rotation(Some(too_low)));
    let lower = PartAnchorInfo {
        rotation_anchor: Vector::new(0, 0, 0),
        translation_anchor: Vector::new(0, 0, i64::MIN),
    };
    assert!(!part.fits_rotation(Some(lower)));
    assert!(part.fits_rotation(None));
}

#[test]
fn the_order_of_two_rotations_changes_the_transform() {
    let shoulder = PartAnchorInfo::new_rotation_anchor_position(Vector::new(-6 * UNIT, 22 * UNIT, 0));
    let elbow = PartAnchorInfo::new_rotation_anchor_position(Vector::new(-6 * UNIT, 18 * UNIT, 0));
    let mut one = head();
    one.rotate(degrees(90, 0, 0), Some(shoulder));
    one.rotate(degrees(0, 90, 0), Some(elbow));
    let mut other = head();
    other.rotate(degrees(0, 90, 0), Some(elbow));
    other.rotate(degrees(90, 0, 0), Some(shoulder));
    assert_ne!(one.get_rotation_matrix().steps, other.get_rotation_matrix().steps);
    let a = matrix_of(&one.get_rotation_matrix());
    let b = matrix_of(&other.get_rotation_matrix());
    assert!(!a.abs_diff_eq(b, 1e-3));
    let corner = Vec3::new(-4.0, 24.0, -4.0);
    assert!(!a.transform_point3(corner).abs_diff_eq(b.transform_point3(corner), 1e-3));
}

#[test]
fn the_order_matters_with_zero_anchors_too_unless_the_axis_is_shared() {
    let mut one = head();
    one.rotate(degrees(90, 0, 0), None);
    one.rotate(degrees(0, 90, 0), None);
    let mut other = head();
    other.rotate(degrees(0, 90, 0), None);
    other.rotate(degrees(90, 0, 0), None);
    let a = matrix_of(&one.get_rotation_matrix());
    let b = matrix_of(&other.get_rotation_matrix());
    assert!(!a.abs_diff_eq(b, 1e-3));

    let mut first = head();
    first.rotate(degrees(30, 0, 0), None);
    first.rotate(degrees(45, 0, 0), None);
    let mut second = head();
    second.rotate(degrees(45, 0, 0), None);
    second.rotate(degrees(30, 0, 0), None);
    let c = matrix_of(&first.get_rotation_matrix());
    let d = matrix_of(&second.get_rotation_matrix());
    assert!(c.abs_diff_eq(d, 1e-5));
}

#[test]
fn a_rotation_around_a_pivot_leaves_the_pivot_in_place() {
    let mut part = head();
    let pivot = Vector::new(-6 * UNIT, 22 * UNIT, UNIT / 2);
    part.rotate(degrees(37, 12, -80), Some(PartAnchorInfo::new_rotation_anchor_position(pivot)));
    let matrix = matrix_of(&part.get_rotation_matrix());
    assert!(matrix.transform_point3(to_vec3(pivot)).abs_diff_eq(to_vec3(pivot), 1e-4));
    let turned = matrix.transform_point3(Vec3::new(0.0, 0.0, 0.0));
    assert!(!turned.abs_diff_eq(Vec3::ZERO, 1e-3));
}

#[test]
fn a_later_rotation_turns_the_part_as_it_stands() {
    let mut part = head();
    part.rotate(degrees(0, 0, 90), None);
    part.rotate(degrees(90, 0, 0), None);
    let matrix = matrix_of(&part.get_rotation_matrix());
    let turned = matrix.transform_point3(Vec3::new(1.0, 0.0, 0.0));
    assert!(turned.abs_diff_eq(Vec3::new(0.0, 0.0, 1.0), 1e-5));
}

#[test]
fn the_texture_and_the_faces_can_be_replaced() {
    let mut part = head();
    part.set_texture(PlayerPartTextureType::Cape);
    assert_eq!(part.get_texture(), PlayerPartTextureType::Cape);
    assert_eq!(part.get_position(), Vector::new(-4096, 24576, -4096));
    let mut other = faces();
    other.up = other.up.flip_vertically();
    part.set_face_uvs(other);
    assert_eq!(part.get_face_uvs(), other);
    assert_eq!(part.get_texture(), PlayerPartTextureType::Cape);
    assert_eq!(part.get_size(), Vector::new(8192, 8192, 8192));
    let mut quad = cape();
    quad.set_texture(PlayerPartTextureType::Skin);
    assert_eq!(quad.get_texture(), PlayerPartTextureType::Skin);
    assert!(matches!(quad, Part::Quad { .. }));
}

#[test]
fn position_size_and_normal_can_be_changed_in_place() {
    let mut part = head();
    *part.position_mut() = Vector::new(1, 2, 3);
    part.size_mut().y = 77;
    assert_eq!(part.get_position(), Vector::new(1, 2, 3));
    assert_eq!(part.get_size(), Vector::new(8192, 77, 8192));
    assert_eq!(part.get_face_uvs(), faces());
    let mut quad = cape();
    *quad.normal_mut() = Vector::new(0, UNIT, 0);
    quad.position_mut().x += 5;
    match quad {
        Part::Quad { normal, position, .. } => {
            assert_eq!(normal, Vector::new(0, 1024, 0));
            assert_eq!(position, Vector::new(-5115, 8704, 2048));
        }
        Part::Cube { .. } => panic!("a quad was made"),
    }
}

#[test]
fn a_clone_is_equal_and_independent() {
    let mut part = head();
    part.rotate(degrees(1, 2, 3), None);
    let copy = part.clone();
    part.rotate(degrees(4, 5, 6), None);
    assert_eq!(copy.get_rotation_matrix().steps.len(), 1);
    assert_eq!(part.get_rotation_matrix().steps.len(), 2);
    assert_eq!(copy.get_position(), part.get_position());
}

#[test]
fn vectors_are_made_and_added() {
    assert_eq!(Vector::from_units(-1, 2, 3), Vector::new(-1024, 2048, 3072));
    assert_eq!(Vector::from_sizes(1, 0, u32::MAX), Vector::new(1024, 0, 4398046510080));
    assert_eq!(Vector::splat(7), Vector::new(7, 7, 7));
    assert_eq!(Vector::new_zero(), Vector::new(0, 0, 0));
    assert_eq!(Vector::new(1, 2, 3).plus(Vector::new(10, 20, 30)), Vector::new(11, 22, 33));
    assert_eq!(Vector::new(1, 2, 3).minus(Vector::new(10, 20, 30)), Vector::new(-9, -18, -27));
    assert_eq!(
        Vector::new(1, 2, 3).checked_plus(Vector::new(10, 20, 30)),
        Some(Vector::new(11, 22, 33))
    );
    assert_eq!(
        Vector::new(i64::MAX, 0, i64::MIN).checked_plus(Vector::new(0, 5, 0)),
        Some(Vector::new(i64::MAX, 5, i64::MIN))
    );
    assert_eq!(Vector::new(i64::MAX, 0, 0).checked_plus(Vector::new(1, 0, 0)), None);
    assert_eq!(Vector::new(0, 0, i64::MIN).checked_plus(Vector::new(0, 0, -1)), None);
    assert_eq!(
        Vector::new(1, 2, 3).checked_minus(Vector::new(10, 20, 30)),
        Some(Vector::new(-9, -18, -27))
    );
    assert_eq!(Vector::new(i64::MIN, 0, 0).checked_minus(Vector::new(1, 0, 0)), None);
    assert_eq!(Vector::new(0, -2, 0).checked_minus(Vector::new(0, i64::MAX, 0)), None);
    assert_eq!(
        Vector::new(0, -1, 0).checked_minus(Vector::new(0, i64::MAX, 0)),
        Some(Vector::new(0, i64::MIN, 0))
    );
}
