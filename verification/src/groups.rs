//! Which groups of body parts an atlas is rendered in, and which render
//! passes each group takes.

use crate::types::PlayerBodyPartType;
use vstd::prelude::*;

verus! {

/// How the body parts are spread over the rendered groups.
#[derive(Clone, Copy, Debug, PartialEq, Eq, Structural)]
pub enum PartsGroupLogic {
    SplitArmsFromBody,
    MergeArmsWithBody,
    MergeEverything,
}

/// A group of body parts that are rendered into one set of layers.
pub struct PartGroupSpec {
    pub parts: Vec<PlayerBodyPartType>,
    pub toggle_slim: bool,
    pub name: &'static str,
}

/// What a group is, as plain values.
pub ghost struct GroupModel {
    pub parts: Seq<PlayerBodyPartType>,
    pub toggle_slim: bool,
    pub name: Seq<char>,
}

impl View for PartGroupSpec {
    type V = GroupModel;

    open spec fn view(&self) -> GroupModel {
        GroupModel { parts: self.parts@, toggle_slim: self.toggle_slim, name: self.name@ }
    }
}

impl PartGroupSpec {
    pub fn new(parts: Vec<PlayerBodyPartType>, toggle_slim: bool, name: &'static str) -> (group:
        Self)
        ensures
            group@ == (GroupModel { parts: parts@, toggle_slim, name: name@ }),
    {
        Self { parts, toggle_slim, name }
    }
}

/// Head, body and legs.
pub open spec fn trunk_parts() -> Seq<PlayerBodyPartType> {
    seq![
        PlayerBodyPartType::Head,
        PlayerBodyPartType::Body,
        PlayerBodyPartType::LeftLeg,
        PlayerBodyPartType::RightLeg,
    ]
}

/// The overlay layers of head, body and legs.
pub open spec fn trunk_layers() -> Seq<PlayerBodyPartType> {
    seq![
        PlayerBodyPartType::HeadLayer,
        PlayerBodyPartType::BodyLayer,
        PlayerBodyPartType::LeftLegLayer,
        PlayerBodyPartType::RightLegLayer,
    ]
}

pub open spec fn arm_parts() -> Seq<PlayerBodyPartType> {
    seq![PlayerBodyPartType::LeftArm, PlayerBodyPartType::RightArm]
}

pub open spec fn arm_layers() -> Seq<PlayerBodyPartType> {
    seq![PlayerBodyPartType::LeftArmLayer, PlayerBodyPartType::RightArmLayer]
}

/// The groups of each way of grouping. A group whose parts differ between
/// the two models is rendered once per model, into a directory named after
/// the model.
pub open spec fn group_table(logic: PartsGroupLogic) -> Seq<GroupModel> {
    match logic {
        PartsGroupLogic::SplitArmsFromBody => seq![
            GroupModel { parts: trunk_parts(), toggle_slim: false, name: "Body.qoi"@ },
            GroupModel { parts: trunk_layers(), toggle_slim: false, name: "Body Layer.qoi"@ },
            GroupModel { parts: arm_parts(), toggle_slim: true, name: "{model}/Arms.qoi"@ },
            GroupModel { parts: arm_layers(), toggle_slim: true, name: "{model}/Arms Layer.qoi"@ },
        ],
        PartsGroupLogic::MergeArmsWithBody => seq![
            GroupModel {
                parts: trunk_parts() + arm_parts(),
                toggle_slim: true,
                name: "{model}/Body.qoi"@,
            },
            GroupModel {
                parts: trunk_layers() + arm_layers(),
                toggle_slim: true,
                name: "{model}/Body Layer.qoi"@,
            },
        ],
        PartsGroupLogic::MergeEverything => seq![
            GroupModel {
                parts: trunk_parts() + arm_parts(),
                toggle_slim: true,
                name: "{model}/Body.qoi"@,
            },
            GroupModel {
                parts: trunk_parts() + arm_parts() + trunk_layers() + arm_layers(),
                toggle_slim: true,
                name: "{model}/Body Layer.qoi"@,
            },
        ],
    }
}

/// The views of the groups, in order.
pub open spec fn group_models(groups: Seq<PartGroupSpec>) -> Seq<GroupModel> {
    groups.map_values(|group: PartGroupSpec| group@)
}

impl PartsGroupLogic {
    /// The groups that this way of grouping renders, in order.
    pub fn get_groups(&self) -> (groups: Vec<PartGroupSpec>)
        ensures
            group_models(groups@) == group_table(*self),
    {
        let groups = match self {
            PartsGroupLogic::SplitArmsFromBody => {
                vec![
                    PartGroupSpec::new(
                        vec![
                            PlayerBodyPartType::Head,
                            PlayerBodyPartType::Body,
                            PlayerBodyPartType::LeftLeg,
                            PlayerBodyPartType::RightLeg,
                        ],
                        false,
                        "Body.qoi",
                    ),
                    PartGroupSpec::new(
                        vec![
                            PlayerBodyPartType::HeadLayer,
                            PlayerBodyPartType::BodyLayer,
                            PlayerBodyPartType::LeftLegLayer,
                            PlayerBodyPartType::RightLegLayer,
                        ],
                        false,
                        "Body Layer.qoi",
                    ),
                    PartGroupSpec::new(
                        vec![PlayerBodyPartType::LeftArm, PlayerBodyPartType::RightArm],
                        true,
                        "{model}/Arms.qoi",
                    ),
                    PartGroupSpec::new(
                        vec![PlayerBodyPartType::LeftArmLayer, PlayerBodyPartType::RightArmLayer],
                        true,
                        "{model}/Arms Layer.qoi",
                    ),
                ]
            },
            PartsGroupLogic::MergeArmsWithBody => {
                vec![
                    PartGroupSpec::new(
                        vec![
                            PlayerBodyPartType::Head,
                            PlayerBodyPartType::Body,
                            PlayerBodyPartType::LeftLeg,
                            PlayerBodyPartType::RightLeg,
                            PlayerBodyPartType::LeftArm,
                            PlayerBodyPartType::RightArm,
                        ],
                        true,
                        "{model}/Body.qoi",
                    ),
                    PartGroupSpec::new(
                        vec![
                            PlayerBodyPartType::HeadLayer,
                            PlayerBodyPartType::BodyLayer,
                            PlayerBodyPartType::LeftLegLayer,
                            PlayerBodyPartType::RightLegLayer,
                            PlayerBodyPartType::LeftArmLayer,
                            PlayerBodyPartType::RightArmLayer,
                        ],
                        true,
                        "{model}/Body Layer.qoi",
                    ),
                ]
            },
            PartsGroupLogic::MergeEverything => vec![
                PartGroupSpec::new(
                    vec![
                        PlayerBodyPartType::Head,
                        PlayerBodyPartType::Body,
                        PlayerBodyPartType::LeftLeg,
                        PlayerBodyPartType::RightLeg,
                        PlayerBodyPartType::LeftArm,
                        PlayerBodyPartType::RightArm,
                    ],
                    true,
                    "{model}/Body.qoi",
                ),
                PartGroupSpec::new(
                    vec![
                        PlayerBodyPartType::Head,
                        PlayerBodyPartType::Body,
                        PlayerBodyPartType::LeftLeg,
                        PlayerBodyPartType::RightLeg,
                        PlayerBodyPartType::LeftArm,
                        PlayerBodyPartType::RightArm,
                        PlayerBodyPartType::HeadLayer,
                        PlayerBodyPartType::BodyLayer,
                        PlayerBodyPartType::LeftLegLayer,
                        PlayerBodyPartType::RightLegLayer,
                        PlayerBodyPartType::LeftArmLayer,
                        PlayerBodyPartType::RightArmLayer,
                    ],
                    true,
                    "{model}/Body Layer.qoi",
                ),
            ],
        };
        proof {
            let models = group_models(groups@);
            let table = group_table(*self);
            assert(models.len() == table.len());
            assert forall|i: int| 0 <= i < models.len() implies models[i] == table[i] by {
                assert(models[i].parts =~= table[i].parts);
            }
            assert(models =~= table);
        }
        groups
    }
}

} // verus!
