//! The body parts, models and textures that a character is made of.

use vstd::prelude::*;

verus! {

/// A part of the character's body. Every base part has an overlay layer that
/// sits on top of it.
#[derive(Clone, Copy, Debug, PartialEq, Eq, Structural, Hash)]
pub enum PlayerBodyPartType {
    Head,
    Body,
    LeftArm,
    RightArm,
    LeftLeg,
    RightLeg,
    HeadLayer,
    BodyLayer,
    LeftArmLayer,
    RightArmLayer,
    LeftLegLayer,
    RightLegLayer,
}

impl PlayerBodyPartType {
    /// The overlay layers of the body, the hat among them.
    pub open spec fn spec_is_layer(self) -> bool {
        self == PlayerBodyPartType::HeadLayer || self == PlayerBodyPartType::BodyLayer || self
            == PlayerBodyPartType::LeftArmLayer || self == PlayerBodyPartType::RightArmLayer || self
            == PlayerBodyPartType::LeftLegLayer || self == PlayerBodyPartType::RightLegLayer
    }

    /// The overlay layer of the head.
    pub open spec fn spec_is_hat_layer(self) -> bool {
        self == PlayerBodyPartType::HeadLayer
    }

    /// The base part that a layer sits on; a base part is its own.
    pub open spec fn spec_non_layer_part(self) -> PlayerBodyPartType {
        match self {
            PlayerBodyPartType::HeadLayer => PlayerBodyPartType::Head,
            PlayerBodyPartType::BodyLayer => PlayerBodyPartType::Body,
            PlayerBodyPartType::LeftArmLayer => PlayerBodyPartType::LeftArm,
            PlayerBodyPartType::RightArmLayer => PlayerBodyPartType::RightArm,
            PlayerBodyPartType::LeftLegLayer => PlayerBodyPartType::LeftLeg,
            PlayerBodyPartType::RightLegLayer => PlayerBodyPartType::RightLeg,
            base => base,
        }
    }

    #[verifier::when_used_as_spec(spec_is_layer)]
    pub fn is_layer(self) -> (layer: bool)
        ensures
            layer == self.spec_is_layer(),
    {
        match self {
            PlayerBodyPartType::HeadLayer
            | PlayerBodyPartType::BodyLayer
            | PlayerBodyPartType::LeftArmLayer
            | PlayerBodyPartType::RightArmLayer
            | PlayerBodyPartType::LeftLegLayer
            | PlayerBodyPartType::RightLegLayer => true,
            _ => false,
        }
    }

    #[verifier::when_used_as_spec(spec_is_hat_layer)]
    pub fn is_hat_layer(self) -> (hat: bool)
        ensures
            hat == self.spec_is_hat_layer(),
    {
        match self {
            PlayerBodyPartType::HeadLayer => true,
            _ => false,
        }
    }

    #[verifier::when_used_as_spec(spec_non_layer_part)]
    pub fn get_non_layer_part(self) -> (base: PlayerBodyPartType)
        ensures
            base == self.spec_non_layer_part(),
            !base.spec_is_layer(),
    {
        match self {
            PlayerBodyPartType::HeadLayer => PlayerBodyPartType::Head,
            PlayerBodyPartType::BodyLayer => PlayerBodyPartType::Body,
            PlayerBodyPartType::LeftArmLayer => PlayerBodyPartType::LeftArm,
            PlayerBodyPartType::RightArmLayer => PlayerBodyPartType::RightArm,
            PlayerBodyPartType::LeftLegLayer => PlayerBodyPartType::LeftLeg,
            PlayerBodyPartType::RightLegLayer => PlayerBodyPartType::RightLeg,
            base => base,
        }
    }
}

/// The two body shapes: wide arms and slim arms.
#[derive(Clone, Copy, Debug, PartialEq, Eq, Structural, Hash)]
pub enum PlayerModel {
    Steve,
    Alex,
}

impl PlayerModel {
    /// The shape that a choice of slim arms selects.
    pub fn from_slim(slim: bool) -> (model: PlayerModel)
        ensures
            model == if slim {
                PlayerModel::Alex
            } else {
                PlayerModel::Steve
            },
    {
        if slim {
            PlayerModel::Alex
        } else {
            PlayerModel::Steve
        }
    }

    /// The name of the shape in file names.
    pub fn name(self) -> (name: &'static str)
        ensures
            name@ == match self {
                PlayerModel::Alex => "Alex"@,
                PlayerModel::Steve => "Steve"@,
            },
    {
        match self {
            PlayerModel::Alex => "Alex",
            PlayerModel::Steve => "Steve",
        }
    }
}

/// The texture that a part is painted with.
#[derive(Clone, Copy, Debug, PartialEq, Eq, Structural, Hash)]
pub enum PlayerPartTextureType {
    Skin,
    Cape,
}

impl PlayerPartTextureType {
    /// Width and height of the texture in texels.
    pub open spec fn spec_texture_size(self) -> (u32, u32) {
        match self {
            PlayerPartTextureType::Skin => (64, 64),
            PlayerPartTextureType::Cape => (64, 32),
        }
    }

    /// Width and height of the texture in texels.
    #[verifier::when_used_as_spec(spec_texture_size)]
    pub fn get_texture_size(self) -> (size: (u32, u32))
        ensures
            size == self.spec_texture_size(),
            size.0 > 0,
            size.1 > 0,
    {
        match self {
            PlayerPartTextureType::Skin => (64, 64),
            PlayerPartTextureType::Cape => (64, 32),
        }
    }
}

} // verus!
