//! The views that a character can be rendered in.

use crate::naming::same_text;
use crate::types::PlayerBodyPartType;
use crate::vector::UNIT;
use vstd::prelude::*;

verus! {

/// A view of the character.
#[derive(Clone, Copy, Debug, PartialEq, Eq, Structural, Hash)]
pub enum RenderMode {
    FullBody,
    FrontFull,
    Bust,
    FullBodyIso,
    Head,
    HeadIso,
    Face,
}

/// Every body part: the base parts, then their layers.
pub open spec fn all_parts() -> Seq<PlayerBodyPartType> {
    seq![
        PlayerBodyPartType::Head,
        PlayerBodyPartType::Body,
        PlayerBodyPartType::LeftArm,
        PlayerBodyPartType::RightArm,
        PlayerBodyPartType::LeftLeg,
        PlayerBodyPartType::RightLeg,
        PlayerBodyPartType::HeadLayer,
        PlayerBodyPartType::BodyLayer,
        PlayerBodyPartType::LeftArmLayer,
        PlayerBodyPartType::RightArmLayer,
        PlayerBodyPartType::LeftLegLayer,
        PlayerBodyPartType::RightLegLayer,
    ]
}

/// The parts that sit on a leg.
pub open spec fn is_on_leg() -> spec_fn(PlayerBodyPartType) -> bool {
    |part: PlayerBodyPartType|
        part.spec_non_layer_part() == PlayerBodyPartType::LeftLeg || part.spec_non_layer_part()
            == PlayerBodyPartType::RightLeg
}

impl RenderMode {
    /// The name of the view, in lower case.
    pub open spec fn spec_name(self) -> Seq<char> {
        match self {
            RenderMode::FullBody => "fullbody"@,
            RenderMode::FrontFull => "frontfull"@,
            RenderMode::Bust => "bust"@,
            RenderMode::FullBodyIso => "fullbodyiso"@,
            RenderMode::Head => "head"@,
            RenderMode::HeadIso => "headiso"@,
            RenderMode::Face => "face"@,
        }
    }

    /// The parts that the view shows: all of them in the views of the whole
    /// body, head and hat in the views of the head, and the parts that sit
    /// on a leg in the bust.
    pub open spec fn parts(self) -> Seq<PlayerBodyPartType> {
        match self {
            RenderMode::FullBody | RenderMode::FrontFull | RenderMode::FullBodyIso => all_parts(),
            RenderMode::Head | RenderMode::HeadIso | RenderMode::Face => seq![
                PlayerBodyPartType::Head,
                PlayerBodyPartType::HeadLayer,
            ],
            RenderMode::Bust => all_parts().filter(is_on_leg()),
        }
    }

    /// The name of the view, in lower case.
    pub fn name(self) -> (name: &'static str)
        ensures
            name@ == self.spec_name(),
    {
        match self {
            RenderMode::FullBody => "fullbody",
            RenderMode::FrontFull => "frontfull",
            RenderMode::Bust => "bust",
            RenderMode::FullBodyIso => "fullbodyiso",
            RenderMode::Head => "head",
            RenderMode::HeadIso => "headiso",
            RenderMode::Face => "face",
        }
    }

    /// Every view.
    pub fn all() -> (modes: Vec<RenderMode>)
        ensures
            modes@ == seq![
                RenderMode::FullBody,
                RenderMode::FrontFull,
                RenderMode::Bust,
                RenderMode::FullBodyIso,
                RenderMode::Head,
                RenderMode::HeadIso,
                RenderMode::Face,
            ],
    {
        vec![
            RenderMode::FullBody,
            RenderMode::FrontFull,
            RenderMode::Bust,
            RenderMode::FullBodyIso,
            RenderMode::Head,
            RenderMode::HeadIso,
            RenderMode::Face,
        ]
    }

    /// The view of the given name, where there is one.
    pub fn parse(name: &str) -> (mode: Option<RenderMode>)
        ensures
            match mode {
                Some(mode) => mode.spec_name() == name@,
                None => forall|mode: RenderMode| mode.spec_name() != name@,
            },
    {
        let modes = RenderMode::all();
        let mut i: usize = 0;
        while i < modes.len()
            invariant
                i <= modes.len(),
                modes@ == seq![
                    RenderMode::FullBody,
                    RenderMode::FrontFull,
                    RenderMode::Bust,
                    RenderMode::FullBodyIso,
                    RenderMode::Head,
                    RenderMode::HeadIso,
                    RenderMode::Face,
                ],
                forall|k: int| 0 <= k < i ==> (#[trigger] modes@[k]).spec_name() != name@,
            decreases modes.len() - i,
        {
            if same_text(modes[i].name(), name) {
                return Some(modes[i]);
            }
            i += 1;
        }
        proof {
            assert forall|mode: RenderMode| mode.spec_name() != name@ by {
                let k: int = match mode {
                    RenderMode::FullBody => 0,
                    RenderMode::FrontFull => 1,
                    RenderMode::Bust => 2,
                    RenderMode::FullBodyIso => 3,
                    RenderMode::Head => 4,
                    RenderMode::HeadIso => 5,
                    RenderMode::Face => 6,
                };
                assert(modes@[k] == mode);
            }
        }
        None
    }

    /// By how far the arms are turned outwards, in sub-units of a degree.
    pub fn get_arm_rotation(self) -> (rotation: i64)
        ensures
            rotation == match self {
                RenderMode::FullBody | RenderMode::FullBodyIso => 10 * UNIT,
                _ => 0,
            },
    {
        match self {
            RenderMode::FullBody | RenderMode::FullBodyIso => 10 * UNIT,
            _ => 0,
        }
    }

    /// The parts that the view shows.
    pub fn get_body_parts(self) -> (parts: Vec<PlayerBodyPartType>)
        ensures
            parts@ == self.parts(),
    {
        match self {
            RenderMode::FullBody | RenderMode::FrontFull | RenderMode::FullBodyIso => {
                PlayerBodyPartType::all()
            },
            RenderMode::Head | RenderMode::HeadIso | RenderMode::Face => {
                vec![PlayerBodyPartType::Head, PlayerBodyPartType::HeadLayer]
            },
            RenderMode::Bust => {
                let every = PlayerBodyPartType::all();
                let mut parts: Vec<PlayerBodyPartType> = Vec::new();
                let mut i: usize = 0;
                proof {
                    reveal(Seq::filter);
                    assert(every@.take(0).filter(is_on_leg()) =~= Seq::empty());
                }
                while i < every.len()
                    invariant
                        i <= every.len(),
                        every@ == all_parts(),
                        parts@ == every@.take(i as int).filter(is_on_leg()),
                    decreases every.len() - i,
                {
                    proof {
                        reveal(Seq::filter);
                        assert(every@.take(i + 1).drop_last() == every@.take(i as int));
                    }
                    let base = every[i].get_non_layer_part();
                    if base == PlayerBodyPartType::LeftLeg || base == PlayerBodyPartType::RightLeg {
                        parts.push(every[i]);
                    }
                    i += 1;
                }
                proof {
                    assert(every@.take(every.len() as int) == every@);
                }
                parts
            },
        }
    }
}

impl PlayerBodyPartType {
    /// Every body part: the base parts, then their layers.
    pub fn all() -> (parts: Vec<PlayerBodyPartType>)
        ensures
            parts@ == all_parts(),
    {
        vec![
            PlayerBodyPartType::Head,
            PlayerBodyPartType::Body,
            PlayerBodyPartType::LeftArm,
            PlayerBodyPartType::RightArm,
            PlayerBodyPartType::LeftLeg,
            PlayerBodyPartType::RightLeg,
            PlayerBodyPartType::HeadLayer,
            PlayerBodyPartType::BodyLayer,
            PlayerBodyPartType::LeftArmLayer,
            PlayerBodyPartType::RightArmLayer,
            PlayerBodyPartType::LeftLegLayer,
            PlayerBodyPartType::RightLegLayer,
        ]
    }
}

} // verus!
