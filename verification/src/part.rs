//! The parts of a character model: boxes and flat quads, each with a
//! position, a size, a texture and an accumulated rotation.

use crate::types::PlayerPartTextureType;
use crate::uv::{CubeFaceUvs, FaceUv};
use crate::vector::{fits, MinecraftPosition, Vector};
use vstd::prelude::*;

verus! {

/// Where a rotation pivots, and how far the part is moved before it rotates.
#[derive(Clone, Copy, Debug, PartialEq, Eq, Structural)]
pub struct PartAnchorInfo {
    pub rotation_anchor: MinecraftPosition,
    pub translation_anchor: MinecraftPosition,
}

impl PartAnchorInfo {
    /// The anchor at the origin that moves nothing.
    pub open spec fn zero() -> PartAnchorInfo {
        PartAnchorInfo { rotation_anchor: Vector::zero(), translation_anchor: Vector::zero() }
    }

    /// Moves the pivot by `rotation_anchor`; the pivot offsets of nested
    /// frames add up.
    pub fn with_rotation_anchor(self, rotation_anchor: MinecraftPosition) -> (anchor: Self)
        requires
            self.rotation_anchor.sum_fits(rotation_anchor),
        ensures
            anchor.rotation_anchor.is_sum_of(self.rotation_anchor, rotation_anchor),
            anchor.translation_anchor == self.translation_anchor,
    {
        PartAnchorInfo {
            rotation_anchor: self.rotation_anchor.plus(rotation_anchor),
            translation_anchor: self.translation_anchor,
        }
    }

    /// Adds `translation_anchor` to the translation.
    pub fn with_translation_anchor(self, translation_anchor: MinecraftPosition) -> (anchor: Self)
        requires
            self.translation_anchor.sum_fits(translation_anchor),
        ensures
            anchor.translation_anchor.is_sum_of(self.translation_anchor, translation_anchor),
            anchor.rotation_anchor == self.rotation_anchor,
    {
        PartAnchorInfo {
            rotation_anchor: self.rotation_anchor,
            translation_anchor: self.translation_anchor.plus(translation_anchor),
        }
    }

    /// The anchor that pivots at `rotation_anchor` and moves nothing.
    pub fn new_rotation_anchor_position(rotation_anchor: MinecraftPosition) -> (anchor: Self)
        ensures
            anchor.rotation_anchor == rotation_anchor,
            anchor.translation_anchor == Vector::zero(),
    {
        PartAnchorInfo { rotation_anchor, translation_anchor: Vector::new_zero() }
    }

    /// The anchor that moves a part to where `base` stands and pivots there.
    pub fn new_part_anchor_translate(base: &Part) -> (anchor: Self)
        ensures
            anchor.rotation_anchor == base@.position(),
            anchor.translation_anchor == base@.position(),
    {
        let position = base.get_position();
        PartAnchorInfo { rotation_anchor: position, translation_anchor: position }
    }
}

impl Default for PartAnchorInfo {
    fn default() -> (anchor: Self)
        ensures
            anchor == PartAnchorInfo::zero(),
    {
        PartAnchorInfo {
            rotation_anchor: Vector::new_zero(),
            translation_anchor: Vector::new_zero(),
        }
    }
}

/// A rotation around a pivot: the part is moved so that the pivot lies at the
/// origin, turned by the Euler angles in the order yaw (Y), pitch (X), roll
/// (Z), and moved back. Angles are in sub-units of a degree.
#[derive(Clone, Copy, Debug, PartialEq, Eq, Structural)]
pub struct Rotation {
    pub angles: Vector,
    pub pivot: Vector,
}

/// An accumulated rotation: the rotations that were applied to a part, first
/// applied first. As a matrix it is the product of its rotations with the
/// last one leftmost; the empty transform is the identity.
#[derive(Debug)]
pub struct Transform {
    pub steps: Vec<Rotation>,
}

impl View for Transform {
    type V = Seq<Rotation>;

    open spec fn view(&self) -> Seq<Rotation> {
        self.steps@
    }
}

impl Transform {
    /// The transform that leaves every point where it is.
    pub fn identity() -> (transform: Transform)
        ensures
            transform@ == Seq::<Rotation>::empty(),
    {
        Transform { steps: Vec::new() }
    }
}

impl Clone for Transform {
    fn clone(&self) -> (copy: Self)
        ensures
            copy@ == self@,
    {
        let mut steps: Vec<Rotation> = Vec::new();
        let mut i: usize = 0;
        while i < self.steps.len()
            invariant
                i <= self.steps.len(),
                steps@ == self.steps@.take(i as int),
            decreases self.steps.len() - i,
        {
            steps.push(self.steps[i]);
            proof {
                assert(self.steps@.take(i + 1) == self.steps@.take(i as int).push(
                    self.steps@[i as int],
                ));
            }
            i += 1;
        }
        proof {
            assert(self.steps@.take(self.steps.len() as int) == self.steps@);
        }
        Transform { steps }
    }
}

/// A part of a character model.
#[derive(Debug)]
pub enum Part {
    /// A box, with a texture rectangle for each of its six faces.
    Cube {
        position: MinecraftPosition,
        size: MinecraftPosition,
        rotation_matrix: Transform,
        face_uvs: CubeFaceUvs,
        texture: PlayerPartTextureType,
    },
    /// A flat rectangle that faces along its normal.
    Quad {
        position: MinecraftPosition,
        size: MinecraftPosition,
        rotation_matrix: Transform,
        face_uv: FaceUv,
        normal: Vector,
        texture: PlayerPartTextureType,
    },
}

/// What a part is, as plain values.
pub ghost enum PartModel {
    Cube {
        position: Vector,
        size: Vector,
        rotation: Seq<Rotation>,
        face_uvs: CubeFaceUvs,
        texture: PlayerPartTextureType,
    },
    Quad {
        position: Vector,
        size: Vector,
        rotation: Seq<Rotation>,
        face_uv: FaceUv,
        normal: Vector,
        texture: PlayerPartTextureType,
    },
}

impl View for Part {
    type V = PartModel;

    open spec fn view(&self) -> PartModel {
        match *self {
            Part::Cube { position, size, rotation_matrix, face_uvs, texture } => PartModel::Cube {
                position,
                size,
                rotation: rotation_matrix@,
                face_uvs,
                texture,
            },
            Part::Quad {
                position,
                size,
                rotation_matrix,
                face_uv,
                normal,
                texture,
            } => PartModel::Quad {
                position,
                size,
                rotation: rotation_matrix@,
                face_uv,
                normal,
                texture,
            },
        }
    }
}

impl PartModel {
    pub open spec fn is_cube(self) -> bool {
        self is Cube
    }

    pub open spec fn position(self) -> Vector {
        match self {
            PartModel::Cube { position, .. } => position,
            PartModel::Quad { position, .. } => position,
        }
    }

    pub open spec fn size(self) -> Vector {
        match self {
            PartModel::Cube { size, .. } => size,
            PartModel::Quad { size, .. } => size,
        }
    }

    pub open spec fn rotation(self) -> Seq<Rotation> {
        match self {
            PartModel::Cube { rotation, .. } => rotation,
            PartModel::Quad { rotation, .. } => rotation,
        }
    }

    pub open spec fn texture(self) -> PlayerPartTextureType {
        match self {
            PartModel::Cube { texture, .. } => texture,
            PartModel::Quad { texture, .. } => texture,
        }
    }

    pub open spec fn with_position(self, position: Vector) -> PartModel {
        match self {
            PartModel::Cube { size, rotation, face_uvs, texture, .. } => PartModel::Cube {
                position,
                size,
                rotation,
                face_uvs,
                texture,
            },
            PartModel::Quad { size, rotation, face_uv, normal, texture, .. } => PartModel::Quad {
                position,
                size,
                rotation,
                face_uv,
                normal,
                texture,
            },
        }
    }

    pub open spec fn with_size(self, size: Vector) -> PartModel {
        match self {
            PartModel::Cube { position, rotation, face_uvs, texture, .. } => PartModel::Cube {
                position,
                size,
                rotation,
                face_uvs,
                texture,
            },
            PartModel::Quad {
                position,
                rotation,
                face_uv,
                normal,
                texture,
                ..
            } => PartModel::Quad { position, size, rotation, face_uv, normal, texture },
        }
    }

    pub open spec fn with_rotation(self, rotation: Seq<Rotation>) -> PartModel {
        match self {
            PartModel::Cube { position, size, face_uvs, texture, .. } => PartModel::Cube {
                position,
                size,
                rotation,
                face_uvs,
                texture,
            },
            PartModel::Quad { position, size, face_uv, normal, texture, .. } => PartModel::Quad {
                position,
                size,
                rotation,
                face_uv,
                normal,
                texture,
            },
        }
    }

    pub open spec fn with_texture(self, texture: PlayerPartTextureType) -> PartModel {
        match self {
            PartModel::Cube { position, size, rotation, face_uvs, .. } => PartModel::Cube {
                position,
                size,
                rotation,
                face_uvs,
                texture,
            },
            PartModel::Quad { position, size, rotation, face_uv, normal, .. } => PartModel::Quad {
                position,
                size,
                rotation,
                face_uv,
                normal,
                texture,
            },
        }
    }

    /// No component of the size is negative, and the far corner of the part,
    /// its position plus its size, fits the machine's integers.
    pub open spec fn wf(self) -> bool {
        self.size().non_negative() && self.position().sum_fits(self.size())
    }

    /// Twice the centre of the part, which is its position plus half its size.
    pub open spec fn doubled_center(self) -> (int, int, int) {
        (
            2 * self.position().x + self.size().x,
            2 * self.position().y + self.size().y,
            2 * self.position().z + self.size().z,
        )
    }

    /// The size after growing by `amount` on both sides of every axis.
    pub open spec fn grown_size(self, amount: Vector) -> (int, int, int) {
        (
            self.size().x + 2 * amount.x,
            self.size().y + 2 * amount.y,
            self.size().z + 2 * amount.z,
        )
    }

    /// Where the part stands once it has grown by `amount`: a box moves back
    /// by the amount, a quad stays.
    pub open spec fn grown_position(self, amount: Vector) -> (int, int, int) {
        if self.is_cube() {
            (
                self.position().x - amount.x,
                self.position().y - amount.y,
                self.position().z - amount.z,
            )
        } else {
            (self.position().x as int, self.position().y as int, self.position().z as int)
        }
    }

    /// The part can grow by `amount`: its new size is not negative, and its
    /// new size, position and far corner fit the machine's integers.
    pub open spec fn can_expand(self, amount: Vector) -> bool {
        let size = self.grown_size(amount);
        let position = self.grown_position(amount);
        &&& self.wf()
        &&& 0 <= size.0 <= i64::MAX && 0 <= size.1 <= i64::MAX && 0 <= size.2 <= i64::MAX
        &&& fits(position.0) && fits(position.1) && fits(position.2)
        &&& fits(position.0 + size.0) && fits(position.1 + size.1) && fits(position.2 + size.2)
    }

    /// `grown` is `self` grown by `amount` on both sides of every axis. A box
    /// stays centred where it was; a quad keeps its position.
    pub open spec fn is_expansion(self, grown: PartModel, amount: Vector) -> bool {
        let size = self.grown_size(amount);
        &&& grown.size().x == size.0
        &&& grown.size().y == size.1
        &&& grown.size().z == size.2
        &&& if self.is_cube() {
            grown.position().is_difference_of(self.position(), amount)
        } else {
            grown.position() == self.position()
        }
        &&& grown == self.with_position(grown.position()).with_size(grown.size())
    }

    /// The part can take a rotation around `anchor`: after the translation
    /// that comes first, its position and far corner fit the machine's
    /// integers.
    pub open spec fn can_rotate(self, anchor: PartAnchorInfo) -> bool {
        let moved = anchor.translation_anchor;
        &&& self.wf()
        &&& self.position().sum_fits(moved)
        &&& fits(self.position().x + moved.x + self.size().x)
        &&& fits(self.position().y + moved.y + self.size().y)
        &&& fits(self.position().z + moved.z + self.size().z)
    }

    /// `turned` is `self` moved by the anchor's translation and then rotated
    /// by `angles` around the anchor's pivot, after all rotations it had.
    pub open spec fn is_rotation(
        self,
        turned: PartModel,
        angles: Vector,
        anchor: PartAnchorInfo,
    ) -> bool {
        &&& turned.position().is_sum_of(self.position(), anchor.translation_anchor)
        &&& turned.rotation() == self.rotation().push(
            Rotation { angles, pivot: anchor.rotation_anchor },
        )
        &&& turned == self.with_position(turned.position()).with_rotation(turned.rotation())
    }
}

/// Growing a box leaves its centre where it was, whatever the amount; and no
/// growing changes a box into a quad or a quad into a box.
pub proof fn lemma_expand_keeps_center(part: PartModel, grown: PartModel, amount: Vector)
    requires
        part.is_expansion(grown, amount),
    ensures
        part.is_cube() ==> grown.doubled_center() == part.doubled_center(),
        grown.is_cube() == part.is_cube(),
{
}

/// Two rotations applied in one order and in the other leave the part at the
/// same position, and give the same accumulated rotation only where the two
/// are one and the same rotation: the order of different rotations matters.
pub proof fn lemma_rotation_order_matters(
    part: PartModel,
    first_angles: Vector,
    first_anchor: PartAnchorInfo,
    second_angles: Vector,
    second_anchor: PartAnchorInfo,
    once: PartModel,
    one_way: PartModel,
    other_once: PartModel,
    other_way: PartModel,
)
    requires
        part.is_rotation(once, first_angles, first_anchor),
        once.is_rotation(one_way, second_angles, second_anchor),
        part.is_rotation(other_once, second_angles, second_anchor),
        other_once.is_rotation(other_way, first_angles, first_anchor),
    ensures
        one_way.position() == other_way.position(),
        one_way.rotation().len() == part.rotation().len() + 2,
        one_way.rotation() == other_way.rotation() <==> (first_angles == second_angles
            && first_anchor.rotation_anchor == second_anchor.rotation_anchor),
        one_way == other_way <==> (first_angles == second_angles && first_anchor.rotation_anchor
            == second_anchor.rotation_anchor),
{
    let count = part.rotation().len() as int;
    let first = Rotation { angles: first_angles, pivot: first_anchor.rotation_anchor };
    let second = Rotation { angles: second_angles, pivot: second_anchor.rotation_anchor };
    assert(one_way.rotation()[count] == first);
    assert(other_way.rotation()[count] == second);
    assert(one_way.rotation()[count + 1] == second);
    assert(other_way.rotation()[count + 1] == first);
    if first == second {
        assert(one_way.rotation() =~= other_way.rotation());
    }
}

/// Whether one axis of a part can grow by `amount`: the new size is not
/// negative, and the new size, position and far corner fit.
fn grows_within(position: i64, size: i64, amount: i64, cube: bool) -> (ok: bool)
    requires
        size >= 0,
    ensures
        ok == {
            let grown = size + 2 * amount;
            let moved = if cube {
                position - amount
            } else {
                position as int
            };
            0 <= grown <= i64::MAX && fits(moved) && fits(moved + grown)
        },
{
    let grown: i128 = size as i128 + 2 * (amount as i128);
    let moved: i128 = if cube {
        position as i128 - amount as i128
    } else {
        position as i128
    };
    let low: i128 = i64::MIN as i128;
    let high: i128 = i64::MAX as i128;
    0 <= grown && grown <= high && low <= moved && moved <= high && low <= moved + grown && moved
        + grown <= high
}

impl Clone for Part {
    fn clone(&self) -> (copy: Self)
        ensures
            copy@ == self@,
    {
        match self {
            Part::Cube { position, size, rotation_matrix, face_uvs, texture } => Part::Cube {
                position: *position,
                size: *size,
                rotation_matrix: rotation_matrix.clone(),
                face_uvs: *face_uvs,
                texture: *texture,
            },
            Part::Quad { position, size, rotation_matrix, face_uv, normal, texture } => Part::Quad {
                position: *position,
                size: *size,
                rotation_matrix: rotation_matrix.clone(),
                face_uv: *face_uv,
                normal: *normal,
                texture: *texture,
            },
        }
    }
}

impl Part {
    /// A box at `pos` of size `size`, both in whole units, not rotated.
    ///
    /// `uvs` holds the texture rectangle of each face.
    pub fn new_cube(
        texture: PlayerPartTextureType,
        pos: [i32; 3],
        size: [u32; 3],
        uvs: CubeFaceUvs,
    ) -> (part: Self)
        ensures
            part@ == (PartModel::Cube {
                position: part@.position(),
                size: part@.size(),
                rotation: Seq::empty(),
                face_uvs: uvs,
                texture,
            }),
            part@.position().x == pos[0] * crate::vector::UNIT,
            part@.position().y == pos[1] * crate::vector::UNIT,
            part@.position().z == pos[2] * crate::vector::UNIT,
            part@.size().x == size[0] * crate::vector::UNIT,
            part@.size().y == size[1] * crate::vector::UNIT,
            part@.size().z == size[2] * crate::vector::UNIT,
            part@.wf(),
    {
        Part::Cube {
            position: Vector::from_units(pos[0], pos[1], pos[2]),
            size: Vector::from_sizes(size[0], size[1], size[2]),
            rotation_matrix: Transform::identity(),
            face_uvs: uvs,
            texture,
        }
    }

    /// A quad at `pos`, in sub-units, of size `size`, in whole units, not
    /// rotated, that faces along `normal`. It is well formed unless it lies
    /// so far out that its far corner does not fit the machine's integers.
    pub fn new_quad(
        texture: PlayerPartTextureType,
        pos: [i64; 3],
        size: [u32; 3],
        uvs: FaceUv,
        normal: Vector,
    ) -> (part: Self)
        ensures
            part@ == (PartModel::Quad {
                position: Vector { x: pos[0], y: pos[1], z: pos[2] },
                size: part@.size(),
                rotation: Seq::empty(),
                face_uv: uvs,
                normal,
                texture,
            }),
            part@.size().x == size[0] * crate::vector::UNIT,
            part@.size().y == size[1] * crate::vector::UNIT,
            part@.size().z == size[2] * crate::vector::UNIT,
            part@.size().non_negative(),
    {
        Part::Quad {
            position: Vector::new(pos[0], pos[1], pos[2]),
            size: Vector::from_sizes(size[0], size[1], size[2]),
            rotation_matrix: Transform::identity(),
            face_uv: uvs,
            normal,
            texture,
        }
    }

    /// Whether the size is not negative and the far corner fits the machine's
    /// integers.
    pub fn is_wf(&self) -> (ok: bool)
        ensures
            ok == self@.wf(),
    {
        let size = self.get_size();
        size.x >= 0 && size.y >= 0 && size.z >= 0 && self.get_position().checked_plus(
            size,
        ).is_some()
    }

    /// Whether the part can grow by `amount`.
    pub fn fits_expansion(&self, amount: Vector) -> (ok: bool)
        ensures
            ok == self@.can_expand(amount),
    {
        if !self.is_wf() {
            return false;
        }
        let size = self.get_size();
        let position = self.get_position();
        let cube = match self {
            Part::Cube { .. } => true,
            Part::Quad { .. } => false,
        };
        grows_within(position.x, size.x, amount.x, cube) && grows_within(
            position.y,
            size.y,
            amount.y,
            cube,
        ) && grows_within(position.z, size.z, amount.z, cube)
    }

    /// The part grown by `amount` on both sides of every axis.
    pub fn expand_splat(&self, amount: i64) -> (grown: Self)
        requires
            self@.can_expand(Vector { x: amount, y: amount, z: amount }),
        ensures
            self@.is_expansion(grown@, Vector { x: amount, y: amount, z: amount }),
            grown@.wf(),
            self@.is_cube() ==> grown@.doubled_center() == self@.doubled_center(),
    {
        self.expand(Vector::splat(amount))
    }

    /// The part grown by `amount` on both sides of each axis: its size grows
    /// by twice the amount. A box moves back by the amount, so that its
    /// centre stays where it was; a quad keeps its position.
    pub fn expand(&self, amount: Vector) -> (grown: Self)
        requires
            self@.can_expand(amount),
        ensures
            self@.is_expansion(grown@, amount),
            grown@.wf(),
            self@.is_cube() ==> grown@.doubled_center() == self@.doubled_center(),
    {
        match self {
            Part::Cube { position, size, rotation_matrix, face_uvs, texture } => Part::Cube {
                position: position.minus(amount),
                size: Vector::new(
                    size.x + 2 * amount.x,
                    size.y + 2 * amount.y,
                    size.z + 2 * amount.z,
                ),
                rotation_matrix: rotation_matrix.clone(),
                face_uvs: *face_uvs,
                texture: *texture,
            },
            Part::Quad { position, size, rotation_matrix, face_uv, normal, texture } => Part::Quad {
                position: *position,
                size: Vector::new(
                    size.x + 2 * amount.x,
                    size.y + 2 * amount.y,
                    size.z + 2 * amount.z,
                ),
                rotation_matrix: rotation_matrix.clone(),
                face_uv: *face_uv,
                normal: *normal,
                texture: *texture,
            },
        }
    }

    /// The accumulated rotation of the part.
    pub fn get_rotation_matrix(&self) -> (transform: Transform)
        ensures
            transform@ == self@.rotation(),
    {
        match self {
            Part::Cube { rotation_matrix, .. } => rotation_matrix.clone(),
            Part::Quad { rotation_matrix, .. } => rotation_matrix.clone(),
        }
    }

    /// Whether the part can take a rotation around `anchor`.
    pub fn fits_rotation(&self, anchor: Option<PartAnchorInfo>) -> (ok: bool)
        ensures
            ok == self@.can_rotate(
                match anchor {
                    Some(anchor) => anchor,
                    None => PartAnchorInfo::zero(),
                },
            ),
    {
        let translation = match anchor {
            Some(anchor) => anchor.translation_anchor,
            None => Vector::new_zero(),
        };
        if !self.is_wf() {
            return false;
        }
        match self.get_position().checked_plus(translation) {
            Some(moved) => moved.checked_plus(self.get_size()).is_some(),
            None => false,
        }
    }

    /// Moves the part by the anchor's translation and rotates it by
    /// `rotation`, in sub-units of a degree, around the anchor's pivot. The rotation comes
    /// after all rotations that the part had: it turns the part as it stands,
    /// around a pivot given in the space around it. Without an anchor the
    /// part is not moved and pivots at the origin.
    pub fn rotate(&mut self, rotation: MinecraftPosition, anchor: Option<PartAnchorInfo>)
        requires
            old(self)@.can_rotate(
                match anchor {
                    Some(anchor) => anchor,
                    None => PartAnchorInfo::zero(),
                },
            ),
        ensures
            old(self)@.is_rotation(
                final(self)@,
                rotation,
                match anchor {
                    Some(anchor) => anchor,
                    None => PartAnchorInfo::zero(),
                },
            ),
            final(self)@.wf(),
    {
        let anchor = match anchor {
            Some(anchor) => anchor,
            None => PartAnchorInfo::default(),
        };
        let step = Rotation { angles: rotation, pivot: anchor.rotation_anchor };
        match self {
            Part::Cube { position, rotation_matrix, .. } => {
                *position = position.plus(anchor.translation_anchor);
                rotation_matrix.steps.push(step);
            },
            Part::Quad { position, rotation_matrix, .. } => {
                *position = position.plus(anchor.translation_anchor);
                rotation_matrix.steps.push(step);
            },
        }
    }

    pub fn get_size(&self) -> (size: MinecraftPosition)
        ensures
            size == self@.size(),
    {
        match self {
            Part::Cube { size, .. } => *size,
            Part::Quad { size, .. } => *size,
        }
    }

    /// Exclusive access to the size; nothing else of the part changes.
    pub fn size_mut(&mut self) -> (size: &mut MinecraftPosition)
        ensures
            *size == old(self)@.size(),
            final(self)@ == old(self)@.with_size(*final(size)),
    {
        match self {
            Part::Cube { size, .. } => size,
            Part::Quad { size, .. } => size,
        }
    }

    pub fn get_position(&self) -> (position: MinecraftPosition)
        ensures
            position == self@.position(),
    {
        match self {
            Part::Cube { position, .. } => *position,
            Part::Quad { position, .. } => *position,
        }
    }

    /// Exclusive access to the position; nothing else of the part changes.
    pub fn position_mut(&mut self) -> (position: &mut MinecraftPosition)
        ensures
            *position == old(self)@.position(),
            final(self)@ == old(self)@.with_position(*final(position)),
    {
        match self {
            Part::Cube { position, .. } => position,
            Part::Quad { position, .. } => position,
        }
    }

    pub fn get_texture(&self) -> (texture: PlayerPartTextureType)
        ensures
            texture == self@.texture(),
    {
        match self {
            Part::Cube { texture, .. } => *texture,
            Part::Quad { texture, .. } => *texture,
        }
    }

    /// Paints the part with another texture; nothing else of it changes.
    pub fn set_texture(&mut self, texture: PlayerPartTextureType)
        ensures
            final(self)@ == old(self)@.with_texture(texture),
    {
        match self {
            Part::Cube { texture: t, .. } => *t = texture,
            Part::Quad { texture: t, .. } => *t = texture,
        }
    }

    /// The texture rectangles of a box. A quad has none.
    pub fn get_face_uvs(&self) -> (face_uvs: CubeFaceUvs)
        requires
            self@.is_cube(),
        ensures
            self@ matches PartModel::Cube { face_uvs: uvs, .. } && face_uvs == uvs,
    {
        match self {
            Part::Cube { face_uvs, .. } => *face_uvs,
            Part::Quad { .. } => vstd::pervasive::unreached(),
        }
    }

    /// Replaces the texture rectangles of a box; nothing else of it changes.
    /// A quad has none to replace.
    pub fn set_face_uvs(&mut self, face_uvs: CubeFaceUvs)
        requires
            old(self)@.is_cube(),
        ensures
            final(self)@ == (PartModel::Cube {
                position: old(self)@.position(),
                size: old(self)@.size(),
                rotation: old(self)@.rotation(),
                face_uvs,
                texture: old(self)@.texture(),
            }),
    {
        match self {
            Part::Cube { face_uvs: f, .. } => *f = face_uvs,
            Part::Quad { .. } => vstd::pervasive::unreached(),
        }
    }

    /// Exclusive access to the normal of a quad; nothing else of the part
    /// changes. A box has no normal.
    pub fn normal_mut(&mut self) -> (normal: &mut Vector)
        requires
            old(self)@ is Quad,
        ensures
            old(self)@ matches PartModel::Quad {
                position,
                size,
                rotation,
                face_uv,
                normal: before,
                texture,
            } && *normal == before && final(self)@ == (PartModel::Quad {
                position,
                size,
                rotation,
                face_uv,
                normal: *final(normal),
                texture,
            }),
    {
        match self {
            Part::Cube { .. } => vstd::pervasive::unreached(),
            Part::Quad { normal, .. } => normal,
        }
    }
}

} // verus!
