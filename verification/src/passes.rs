//! The render passes that a group of body parts takes, and the settings of
//! each pass.
//!
//! A group without overlay layers is rendered in one pass. A group with
//! overlay layers is rendered part by part, front faces first, then the back
//! faces of the layers: the compositor merges the passes by depth.

use crate::groups::{group_models, group_table, GroupModel, PartGroupSpec, PartsGroupLogic};
use crate::naming::{replace_all, replaced};
use crate::sequences::lemma_filter_step;
use crate::types::{PlayerBodyPartType, PlayerModel};
use vstd::prelude::*;

verus! {

/// One render pass: the parts it shows, on which model, and which faces.
pub struct RenderPassSpec {
    pub parts: Vec<PlayerBodyPartType>,
    pub slim: bool,
    pub back_face: bool,
}

/// What a render pass is, as plain values.
pub ghost struct PassModel {
    pub parts: Seq<PlayerBodyPartType>,
    pub slim: bool,
    pub back_face: bool,
}

impl View for RenderPassSpec {
    type V = PassModel;

    open spec fn view(&self) -> PassModel {
        PassModel { parts: self.parts@, slim: self.slim, back_face: self.back_face }
    }
}

/// The views of the passes, in order.
pub open spec fn pass_models(passes: Seq<RenderPassSpec>) -> Seq<PassModel> {
    passes.map_values(|pass: RenderPassSpec| pass@)
}

/// A part has back faces worth rendering where it is an overlay layer.
pub open spec fn is_overlay(part: PlayerBodyPartType) -> bool {
    part.spec_is_layer() || part.spec_is_hat_layer()
}

/// A group is rendered part by part where it holds an overlay layer.
pub open spec fn wants_back_faces(parts: Seq<PlayerBodyPartType>) -> bool {
    exists|i: int| 0 <= i < parts.len() && is_overlay(#[trigger] parts[i])
}

/// The parts that a pass over the front or the back faces shows: all of them
/// from the front, the overlay layers from the back.
pub open spec fn shown_in(back_face: bool) -> spec_fn(PlayerBodyPartType) -> bool {
    |part: PlayerBodyPartType| !back_face || is_overlay(part)
}

pub open spec fn pass_of_part(slim: bool, back_face: bool) -> spec_fn(
    PlayerBodyPartType,
) -> PassModel {
    |part: PlayerBodyPartType| PassModel { parts: seq![part], slim, back_face }
}

/// One pass for each part that the faces show, in the order of the parts.
pub open spec fn face_passes(parts: Seq<PlayerBodyPartType>, slim: bool, back_face: bool) -> Seq<
    PassModel,
> {
    parts.filter(shown_in(back_face)).map_values(pass_of_part(slim, back_face))
}

/// The passes of a group on one model.
pub open spec fn group_passes(parts: Seq<PlayerBodyPartType>, slim: bool) -> Seq<PassModel> {
    if wants_back_faces(parts) {
        face_passes(parts, slim, false) + face_passes(parts, slim, true)
    } else {
        seq![PassModel { parts, slim, back_face: false }]
    }
}

/// Whether a group holds an overlay layer.
pub fn has_overlay(parts: &Vec<PlayerBodyPartType>) -> (found: bool)
    ensures
        found == wants_back_faces(parts@),
{
    let mut i: usize = 0;
    while i < parts.len()
        invariant
            i <= parts.len(),
            forall|k: int| 0 <= k < i ==> !is_overlay(#[trigger] parts[k]),
        decreases parts.len() - i,
    {
        if parts[i].is_layer() || parts[i].is_hat_layer() {
            return true;
        }
        i += 1;
    }
    false
}

fn copy_parts(parts: &Vec<PlayerBodyPartType>) -> (copy: Vec<PlayerBodyPartType>)
    ensures
        copy@ == parts@,
{
    let mut copy: Vec<PlayerBodyPartType> = Vec::new();
    let mut i: usize = 0;
    while i < parts.len()
        invariant
            i <= parts.len(),
            copy@ == parts@.take(i as int),
        decreases parts.len() - i,
    {
        copy.push(parts[i]);
        proof {
            assert(parts@.take(i + 1) == parts@.take(i as int).push(parts@[i as int]));
        }
        i += 1;
    }
    proof {
        assert(parts@.take(parts.len() as int) == parts@);
    }
    copy
}

/// Appends one pass for each part that the faces show.
fn push_face_passes(
    passes: &mut Vec<RenderPassSpec>,
    parts: &Vec<PlayerBodyPartType>,
    slim: bool,
    back_face: bool,
)
    ensures
        pass_models(final(passes)@) == pass_models(old(passes)@) + face_passes(
            parts@,
            slim,
            back_face,
        ),
{
    let mut i: usize = 0;
    proof {
        reveal(Seq::filter);
        assert(parts@.take(0).filter(shown_in(back_face)) =~= Seq::empty());
        assert(pass_models(passes@) =~= pass_models(old(passes)@) + face_passes(
            parts@.take(0),
            slim,
            back_face,
        ));
    }
    while i < parts.len()
        invariant
            i <= parts.len(),
            pass_models(passes@) == pass_models(old(passes)@) + face_passes(
                parts@.take(i as int),
                slim,
                back_face,
            ),
        decreases parts.len() - i,
    {
        let part = parts[i];
        let ghost before = passes@;
        proof {
            lemma_filter_step(parts@, shown_in(back_face), i as int);
        }
        if !(back_face && !(part.is_layer() || part.is_hat_layer())) {
            passes.push(RenderPassSpec { parts: vec![part], slim, back_face });
            proof {
                let shown = parts@.take(i as int).filter(shown_in(back_face));
                assert(passes@.last()@ == pass_of_part(slim, back_face)(part)) by {
                    assert(passes@.last().parts@ =~= seq![part]);
                }
                assert(pass_models(passes@) =~= pass_models(before).push(
                    pass_of_part(slim, back_face)(part),
                ));
                assert(shown.push(part).map_values(pass_of_part(slim, back_face)) =~= shown.map_values(
                    pass_of_part(slim, back_face),
                ).push(pass_of_part(slim, back_face)(part)));
                assert(pass_models(passes@) =~= pass_models(old(passes)@) + face_passes(
                    parts@.take(i + 1),
                    slim,
                    back_face,
                ));
            }
        }
        i += 1;
    }
    proof {
        assert(parts@.take(parts.len() as int) == parts@);
    }
}

/// The passes in which a group is rendered on one model.
pub fn plan_passes(parts: &Vec<PlayerBodyPartType>, slim: bool) -> (passes: Vec<RenderPassSpec>)
    ensures
        pass_models(passes@) == group_passes(parts@, slim),
{
    let mut passes: Vec<RenderPassSpec> = Vec::new();
    if has_overlay(parts) {
        push_face_passes(&mut passes, parts, slim, false);
        push_face_passes(&mut passes, parts, slim, true);
        proof {
            assert(pass_models(Seq::<RenderPassSpec>::empty()) =~= Seq::<PassModel>::empty());
            assert(pass_models(passes@) =~= group_passes(parts@, slim));
        }
    } else {
        passes.push(RenderPassSpec { parts: copy_parts(parts), slim, back_face: false });
        proof {
            assert(pass_models(passes@) =~= group_passes(parts@, slim));
        }
    }
    passes
}

/// The rendering of a group on one model: its file name and its passes.
pub struct GroupRender {
    pub model: PlayerModel,
    pub name: String,
    pub passes: Vec<RenderPassSpec>,
}

/// The name of a model in file names.
pub open spec fn model_name(model: PlayerModel) -> Seq<char> {
    match model {
        PlayerModel::Alex => "Alex"@,
        PlayerModel::Steve => "Steve"@,
    }
}

/// The rendering of `group` on `model` is what the group asks for: the passes
/// of its parts, under the group's name with the model's name filled in.
pub open spec fn renders_group(render: GroupRender, group: GroupModel, model: PlayerModel) -> bool {
    &&& render.model == model
    &&& render.name@ == replaced(group.name, "{model}"@, model_name(model))
    &&& pass_models(render.passes@) == group_passes(group.parts, model == PlayerModel::Alex)
}

fn plan_group_on(group: &PartGroupSpec, slim: bool) -> (render: GroupRender)
    ensures
        renders_group(
            render,
            group@,
            if slim {
                PlayerModel::Alex
            } else {
                PlayerModel::Steve
            },
        ),
{
    let model = PlayerModel::from_slim(slim);
    proof {
        reveal_strlit("{model}");
    }
    GroupRender {
        model,
        name: replace_all(group.name, "{model}", model.name()),
        passes: plan_passes(&group.parts, slim),
    }
}

/// The renderings of a group: on the wide model, and on the slim model too
/// where the group differs between the models.
pub fn plan_group(group: &PartGroupSpec) -> (renders: Vec<GroupRender>)
    ensures
        renders.len() == if group.toggle_slim {
            2int
        } else {
            1int
        },
        renders_group(renders[0], group@, PlayerModel::Steve),
        group.toggle_slim ==> renders_group(renders[1], group@, PlayerModel::Alex),
{
    let mut renders: Vec<GroupRender> = Vec::new();
    renders.push(plan_group_on(group, false));
    if group.toggle_slim {
        renders.push(plan_group_on(group, true));
    }
    renders
}

/// The renderings are those of the groups, group after group: each group on
/// the wide model, then on the slim model where the group differs there.
pub open spec fn renders_groups(renders: Seq<GroupRender>, groups: Seq<GroupModel>) -> bool
    decreases groups.len(),
{
    if groups.len() == 0 {
        renders.len() == 0
    } else {
        let group = groups.last();
        let count: int = if group.toggle_slim {
            2
        } else {
            1
        };
        &&& renders.len() >= count
        &&& renders_groups(renders.take(renders.len() - count), groups.drop_last())
        &&& renders_group(renders[renders.len() - count], group, PlayerModel::Steve)
        &&& group.toggle_slim ==> renders_group(renders[renders.len() - 1], group, PlayerModel::Alex)
    }
}

/// The renderings that an atlas is made of, group after group.
pub fn plan_atlas(logic: PartsGroupLogic) -> (renders: Vec<GroupRender>)
    ensures
        renders_groups(renders@, group_table(logic)),
{
    let groups = logic.get_groups();
    let mut renders: Vec<GroupRender> = Vec::new();
    let mut i: usize = 0;
    while i < groups.len()
        invariant
            i <= groups.len(),
            renders_groups(renders@, group_models(groups@).take(i as int)),
        decreases groups.len() - i,
    {
        let ghost before = renders@;
        let ghost models = group_models(groups@);
        renders.push(plan_group_on(&groups[i], false));
        if groups[i].toggle_slim {
            renders.push(plan_group_on(&groups[i], true));
        }
        proof {
            let count: int = if groups[i as int].toggle_slim {
                2
            } else {
                1
            };
            assert(models.take(i + 1).drop_last() == models.take(i as int));
            assert(models.take(i + 1).last() == groups[i as int]@);
            assert(renders@.take(renders@.len() - count) == before);
        }
        i += 1;
    }
    proof {
        assert(group_models(groups@).take(groups.len() as int) == group_models(groups@));
    }
    renders
}

/// Which shader a pass is drawn with.
#[derive(Clone, Copy, Debug, PartialEq, Eq, Structural)]
pub enum ShaderVariant {
    /// Packs depth and shading into the colour channels of front faces.
    FrontFace,
    /// Packs depth and shading into the colour channels of back faces.
    BackFace,
    /// Draws plain shaded colours; such a pass is not composited.
    Shaded,
}

/// How one pass is set up.
#[derive(Clone, Copy, Debug, PartialEq, Eq, Structural)]
pub struct PassSettings {
    pub model: PlayerModel,
    pub has_hat_layer: bool,
    pub has_layers: bool,
    pub has_cape: bool,
    /// By how far the arms are turned outwards, in sub-units of a degree.
    pub arm_rotation: i64,
    /// The height of the ground shadow, in sub-units, where one is drawn.
    pub shadow_y_pos: Option<i64>,
    pub shadow_is_square: bool,
    pub shader: ShaderVariant,
}

pub open spec fn holds_hat_layer(parts: Seq<PlayerBodyPartType>) -> bool {
    exists|i: int| 0 <= i < parts.len() && (#[trigger] parts[i]).spec_is_hat_layer()
}

pub open spec fn holds_layer(parts: Seq<PlayerBodyPartType>) -> bool {
    exists|i: int| 0 <= i < parts.len() && (#[trigger] parts[i]).spec_is_layer()
}

/// The settings of a pass: a pass with a ground shadow draws plain colours,
/// every other pass packs depth into the colours of the faces it shows.
pub open spec fn settings_of(
    parts: Seq<PlayerBodyPartType>,
    slim: bool,
    back_face: bool,
    shadow_y_pos: Option<i64>,
) -> PassSettings {
    PassSettings {
        model: if slim {
            PlayerModel::Alex
        } else {
            PlayerModel::Steve
        },
        has_hat_layer: holds_hat_layer(parts),
        has_layers: holds_layer(parts),
        has_cape: false,
        arm_rotation: (10 * crate::vector::UNIT) as i64,
        shadow_y_pos,
        shadow_is_square: false,
        shader: if shadow_y_pos.is_some() {
            ShaderVariant::Shaded
        } else if back_face {
            ShaderVariant::BackFace
        } else {
            ShaderVariant::FrontFace
        },
    }
}

/// The settings of a pass over `parts`.
pub fn pass_settings(
    parts: &Vec<PlayerBodyPartType>,
    slim: bool,
    back_face: bool,
    shadow_y_pos: Option<i64>,
) -> (settings: PassSettings)
    ensures
        settings == settings_of(parts@, slim, back_face, shadow_y_pos),
{
    let mut has_hat_layer = false;
    let mut has_layers = false;
    let mut i: usize = 0;
    while i < parts.len()
        invariant
            i <= parts.len(),
            has_hat_layer == holds_hat_layer(parts@.take(i as int)),
            has_layers == holds_layer(parts@.take(i as int)),
        decreases parts.len() - i,
    {
        proof {
            let before = parts@.take(i as int);
            let after = parts@.take(i + 1);
            assert(after[i as int] == parts[i as int]);
            assert forall|k: int| 0 <= k < before.len() implies before[k] == after[k] by {}
            if holds_hat_layer(before) {
                let k = choose|k: int| 0 <= k < before.len() && (#[trigger] before[k]).spec_is_hat_layer();
                assert(after[k].spec_is_hat_layer());
            }
            if holds_layer(before) {
                let k = choose|k: int| 0 <= k < before.len() && (#[trigger] before[k]).spec_is_layer();
                assert(after[k].spec_is_layer());
            }
            if holds_hat_layer(after) && !parts[i as int].spec_is_hat_layer() {
                let k = choose|k: int| 0 <= k < after.len() && (#[trigger] after[k]).spec_is_hat_layer();
                assert(before[k].spec_is_hat_layer());
            }
            if holds_layer(after) && !parts[i as int].spec_is_layer() {
                let k = choose|k: int| 0 <= k < after.len() && (#[trigger] after[k]).spec_is_layer();
                assert(before[k].spec_is_layer());
            }
        }
        if parts[i].is_hat_layer() {
            has_hat_layer = true;
        }
        if parts[i].is_layer() {
            has_layers = true;
        }
        i += 1;
    }
    proof {
        assert(parts@.take(parts.len() as int) == parts@);
    }
    PassSettings {
        model: PlayerModel::from_slim(slim),
        has_hat_layer,
        has_layers,
        has_cape: false,
        arm_rotation: 10 * crate::vector::UNIT,
        shadow_y_pos,
        shadow_is_square: false,
        shader: if shadow_y_pos.is_some() {
            ShaderVariant::Shaded
        } else if back_face {
            ShaderVariant::BackFace
        } else {
            ShaderVariant::FrontFace
        },
    }
}

/// The pass that draws the ground shadow behind every atlas: the head of the
/// wide model from the front, over a shadow at `shadow_y_pos`, or at height
/// zero where none is given.
pub fn environment_pass(shadow_y_pos: Option<i64>) -> (pass: (RenderPassSpec, PassSettings))
    ensures
        pass.0@ == (PassModel {
            parts: seq![PlayerBodyPartType::Head],
            slim: false,
            back_face: false,
        }),
        pass.1 == settings_of(
            pass.0@.parts,
            false,
            false,
            Some(
                match shadow_y_pos {
                    Some(height) => height,
                    None => 0i64,
                },
            ),
        ),
        pass.1.shader == ShaderVariant::Shaded,
{
    let parts = vec![PlayerBodyPartType::Head];
    let height = match shadow_y_pos {
        Some(height) => height,
        None => 0,
    };
    let settings = pass_settings(&parts, false, false, Some(height));
    proof {
        assert(parts@ =~= seq![PlayerBodyPartType::Head]);
    }
    (RenderPassSpec { parts, slim: false, back_face: false }, settings)
}

/// Where the ground shadow is written, under the directory of the renders.
pub fn environment_file_name() -> (name: &'static str)
    ensures
        name@ == "renders/environment_background.qoi"@,
{
    "renders/environment_background.qoi"
}

} // verus!
