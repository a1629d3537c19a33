use nmsr_core::groups::{PartGroupSpec, PartsGroupLogic};
use nmsr_core::passes::{
    environment_file_name, environment_pass, has_overlay, pass_settings, plan_atlas, plan_group,
    plan_passes, PassSettings, RenderPassSpec, ShaderVariant,
};
use nmsr_core::types::PlayerBodyPartType::{
    self, Body, BodyLayer, Head, HeadLayer, LeftArm, LeftArmLayer, LeftLeg, LeftLegLayer,
    RightArm, RightArmLayer, RightLeg, RightLegLayer,
};
use nmsr_core::types::{PlayerModel, PlayerPartTextureType};

fn summary(groups: &[PartGroupSpec]) -> Vec<(Vec<PlayerBodyPartType>, bool, &'static str)> {
    groups.iter().map(|group| (group.parts.clone(), group.toggle_slim, group.name)).collect()
}

fn passes(plan: &[RenderPassSpec]) -> Vec<(Vec<PlayerBodyPartType>, bool, bool)> {
    plan.iter().map(|pass| (pass.parts.clone(), pass.slim, pass.back_face)).collect()
}

#[test]
fn split_arms_from_body_has_four_groups() {
    assert_eq!(
        summary(&PartsGroupLogic::SplitArmsFromBody.get_groups()),
        vec![
            (vec![Head, Body, LeftLeg, RightLeg], false, "Body.qoi"),
            (vec![HeadLayer, BodyLayer, LeftLegLayer, RightLegLayer], false, "Body Layer.qoi"),
            (vec![LeftArm, RightArm], true, "{model}/Arms.qoi"),
            (vec![LeftArmLayer, RightArmLayer], true, "{model}/Arms Layer.qoi"),
        ]
    );
}

#[test]
fn merge_arms_with_body_has_two_groups() {
    assert_eq!(
        summary(&PartsGroupLogic::MergeArmsWithBody.get_groups()),
        vec![
            (vec![Head, Body, LeftLeg, RightLeg, LeftArm, RightArm], true, "{model}/Body.qoi"),
            (
                vec![
                    HeadLayer,
                    BodyLayer,
                    LeftLegLayer,
                    RightLegLayer,
                    LeftArmLayer,
                    RightArmLayer
                ],
                true,
                "{model}/Body Layer.qoi"
            ),
        ]
    );
}

#[test]
fn merge_everything_puts_all_parts_in_the_layer_group() {
    assert_eq!(
        summary(&PartsGroupLogic::MergeEverything.get_groups()),
        vec![
            (vec![Head, Body, LeftLeg, RightLeg, LeftArm, RightArm], true, "{model}/Body.qoi"),
            (
                vec![
                    Head,
                    Body,
                    LeftLeg,
                    RightLeg,
                    LeftArm,
                    RightArm,
                    HeadLayer,
                    BodyLayer,
                    LeftLegLayer,
                    RightLegLayer,
                    LeftArmLayer,
                    RightArmLayer
                ],
                true,
                "{model}/Body Layer.qoi"
            ),
        ]
    );
}

#[test]
fn a_group_is_made_of_what_it_is_given() {
    let group = PartGroupSpec::new(vec![Head, HeadLayer], true, "{model}/Head.qoi");
    assert_eq!(group.parts, vec![Head, HeadLayer]);
    assert!(group.toggle_slim);
    assert_eq!(group.name, "{model}/Head.qoi");
}

#[test]
fn a_group_without_layers_takes_one_pass() {
    assert!(!has_overlay(&vec![Head, Body, LeftLeg, RightLeg]));
    assert!(!has_overlay(&vec![]));
    assert_eq!(
        passes(&plan_passes(&vec![Head, Body, LeftLeg, RightLeg], false)),
        vec![(vec![Head, Body, LeftLeg, RightLeg], false, false)]
    );
    assert_eq!(
        passes(&plan_passes(&vec![LeftArm, RightArm], true)),
        vec![(vec![LeftArm, RightArm], true, false)]
    );
    assert_eq!(passes(&plan_passes(&vec![], false)), vec![(vec![], false, false)]);
}

#[test]
fn a_group_of_layers_takes_a_front_and_a_back_pass_for_each() {
    assert!(has_overlay(&vec![LeftArmLayer, RightArmLayer]));
    assert_eq!(
        passes(&plan_passes(&vec![LeftArmLayer, RightArmLayer], true)),
        vec![
            (vec![LeftArmLayer], true, false),
            (vec![RightArmLayer], true, false),
            (vec![LeftArmLayer], true, true),
            (vec![RightArmLayer], true, true),
        ]
    );
}

#[test]
fn a_mixed_group_renders_the_back_faces_of_its_layers_only() {
    assert!(has_overlay(&vec![Head, Body, HeadLayer]));
    assert_eq!(
        passes(&plan_passes(&vec![Head, HeadLayer, Body, BodyLayer], false)),
        vec![
            (vec![Head], false, false),
            (vec![HeadLayer], false, false),
            (vec![Body], false, false),
            (vec![BodyLayer], false, false),
            (vec![HeadLayer], false, true),
            (vec![BodyLayer], false, true),
        ]
    );
}

#[test]
fn a_group_that_differs_by_model_is_rendered_on_both() {
    let group = PartGroupSpec::new(vec![LeftArm, RightArm], true, "{model}/Arms.qoi");
    let renders = plan_group(&group);
    assert_eq!(renders.len(), 2);
    assert_eq!(renders[0].model, PlayerModel::Steve);
    assert_eq!(renders[0].name, "Steve/Arms.qoi");
    assert_eq!(passes(&renders[0].passes), vec![(vec![LeftArm, RightArm], false, false)]);
    assert_eq!(renders[1].model, PlayerModel::Alex);
    assert_eq!(renders[1].name, "Alex/Arms.qoi");
    assert_eq!(passes(&renders[1].passes), vec![(vec![LeftArm, RightArm], true, false)]);
}

#[test]
fn a_group_that_is_the_same_on_both_models_is_rendered_once() {
    let group = PartGroupSpec::new(vec![Head, Body], false, "Body.qoi");
    let renders = plan_group(&group);
    assert_eq!(renders.len(), 1);
    assert_eq!(renders[0].model, PlayerModel::Steve);
    assert_eq!(renders[0].name, "Body.qoi");
}

#[test]
fn an_atlas_renders_every_group_in_turn() {
    let renders = plan_atlas(PartsGroupLogic::SplitArmsFromBody);
    let names: Vec<&str> = renders.iter().map(|render| render.name.as_str()).collect();
    assert_eq!(
        names,
        vec![
            "Body.qoi",
            "Body Layer.qoi",
            "Steve/Arms.qoi",
            "Alex/Arms.qoi",
            "Steve/Arms Layer.qoi",
            "Alex/Arms Layer.qoi",
        ]
    );
    let counts: Vec<usize> = renders.iter().map(|render| render.passes.len()).collect();
    assert_eq!(counts, vec![1, 8, 1, 1, 4, 4]);
    let merged = plan_atlas(PartsGroupLogic::MergeEverything);
    let names: Vec<&str> = merged.iter().map(|render| render.name.as_str()).collect();
    assert_eq!(
        names,
        vec!["Steve/Body.qoi", "Alex/Body.qoi", "Steve/Body Layer.qoi", "Alex/Body Layer.qoi"]
    );
    let counts: Vec<usize> = merged.iter().map(|render| render.passes.len()).collect();
    assert_eq!(counts, vec![1, 1, 18, 18]);
    assert_eq!(plan_atlas(PartsGroupLogic::MergeArmsWithBody).len(), 4);
}

#[test]
fn the_settings_of_a_pass_follow_its_parts_and_faces() {
    assert_eq!(
        pass_settings(&vec![Head, Body], false, false, None),
        PassSettings {
            model: PlayerModel::Steve,
            has_hat_layer: false,
            has_layers: false,
            has_cape: false,
            arm_rotation: 10240,
            shadow_y_pos: None,
            shadow_is_square: false,
            shader: ShaderVariant::FrontFace,
        }
    );
    assert_eq!(
        pass_settings(&vec![HeadLayer], true, true, None),
        PassSettings {
            model: PlayerModel::Alex,
            has_hat_layer: true,
            has_layers: true,
            has_cape: false,
            arm_rotation: 10240,
            shadow_y_pos: None,
            shadow_is_square: false,
            shader: ShaderVariant::BackFace,
        }
    );
    let body_layer = pass_settings(&vec![Body, BodyLayer], false, true, Some(-512));
    assert!(!body_layer.has_hat_layer);
    assert!(body_layer.has_layers);
    assert_eq!(body_layer.shader, ShaderVariant::Shaded);
    assert_eq!(body_layer.shadow_y_pos, Some(-512));
}

#[test]
fn the_environment_is_the_head_over_a_shadow() {
    let (pass, settings) = environment_pass(None);
    assert_eq!(pass.parts, vec![Head]);
    assert!(!pass.slim);
    assert!(!pass.back_face);
    assert_eq!(settings.shadow_y_pos, Some(0));
    assert_eq!(settings.shader, ShaderVariant::Shaded);
    assert_eq!(settings.model, PlayerModel::Steve);
    let (_, settings) = environment_pass(Some(2048));
    assert_eq!(settings.shadow_y_pos, Some(2048));
    assert_eq!(environment_file_name(), "renders/environment_background.qoi");
}

#[test]
fn layers_and_their_base_parts() {
    let layers = [HeadLayer, BodyLayer, LeftArmLayer, RightArmLayer, LeftLegLayer, RightLegLayer];
    let bases = [Head, Body, LeftArm, RightArm, LeftLeg, RightLeg];
    for (layer, base) in layers.iter().zip(bases.iter()) {
        assert!(layer.is_layer());
        assert!(!base.is_layer());
        assert!(!base.is_hat_layer());
        assert_eq!(layer.get_non_layer_part(), *base);
        assert_eq!(base.get_non_layer_part(), *base);
    }
    assert!(HeadLayer.is_hat_layer());
    assert!(!BodyLayer.is_hat_layer());
}

#[test]
fn models_and_textures() {
    assert_eq!(PlayerModel::from_slim(true), PlayerModel::Alex);
    assert_eq!(PlayerModel::from_slim(false), PlayerModel::Steve);
    assert_eq!(PlayerModel::Alex.name(), "Alex");
    assert_eq!(PlayerModel::Steve.name(), "Steve");
    assert_eq!(PlayerPartTextureType::Skin.get_texture_size(), (64, 64));
    assert_eq!(PlayerPartTextureType::Cape.get_texture_size(), (64, 32));
}
