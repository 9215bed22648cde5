use character_controller::world::{
    building_walls, plan_building, skybox_step, RoofSize, SkyboxImage, SkyboxStep, WallFace,
    WallSlot,
};

const ROOFS: [RoofSize; 13] = [
    RoofSize::R4x4,
    RoofSize::R4x6,
    RoofSize::R4x8,
    RoofSize::R6x4,
    RoofSize::R6x6,
    RoofSize::R6x8,
    RoofSize::R6x10,
    RoofSize::R6x12,
    RoofSize::R6x14,
    RoofSize::R8x8,
    RoofSize::R8x10,
    RoofSize::R8x12,
    RoofSize::R8x14,
];

#[test]
fn wall_counts_follow_the_roof_name() {
    assert_eq!(RoofSize::R4x4.wall_counts(), (2, 2));
    assert_eq!(RoofSize::R6x14.wall_counts(), (3, 7));
    assert_eq!(RoofSize::R8x10.wall_counts(), (4, 5));
    for roof in ROOFS {
        let (w, d) = roof.wall_counts();
        let expected = format!("medieval/Roof_RoundTiles_{}x{}.gltf#Scene0", 2 * w, 2 * d);
        assert_eq!(roof.asset_path(), expected);
    }
}

#[test]
fn single_floor_layout_order() {
    let walls = building_walls(2, 1, 1);
    let s = |face, index| WallSlot { floor: 0, face, index };
    assert_eq!(
        walls,
        vec![
            s(WallFace::Front, 0),
            s(WallFace::Back, 0),
            s(WallFace::Front, 1),
            s(WallFace::Back, 1),
            s(WallFace::Left, 0),
            s(WallFace::Right, 0),
        ]
    );
}

#[test]
fn every_wall_once() {
    let (w, d, f) = (3usize, 5usize, 4usize);
    let walls = building_walls(w, d, f);
    assert_eq!(walls.len(), f * 2 * (w + d));
    for floor in 0..f {
        for face in [WallFace::Front, WallFace::Back, WallFace::Left, WallFace::Right] {
            let n = if matches!(face, WallFace::Front | WallFace::Back) { w } else { d };
            for index in 0..n {
                let slot = WallSlot { floor, face, index };
                assert_eq!(walls.iter().filter(|x| **x == slot).count(), 1);
            }
        }
    }
}

#[test]
fn empty_buildings() {
    assert!(building_walls(2, 2, 0).is_empty());
    assert!(building_walls(0, 0, 3).is_empty());
}

#[test]
fn plan_for_a_small_house() {
    let plan = plan_building(RoofSize::R4x4, 1);
    assert_eq!((plan.width_walls, plan.depth_walls, plan.roof_floor), (2, 2, 1));
    assert_eq!(plan.walls.len(), 8);
    let plan = plan_building(RoofSize::R6x8, 3);
    assert_eq!(plan.walls.len(), 3 * 14);
    assert_eq!(plan.walls[14], WallSlot { floor: 1, face: WallFace::Front, index: 0 });
    assert_eq!(plan.roof_floor, 3);
}

#[test]
fn skybox_waits_until_ready() {
    let img = Some(SkyboxImage { layer_count: 1, width: 512, height: 3072 });
    assert_eq!(skybox_step(false, false, img, true), (SkyboxStep::Wait, false));
    assert_eq!(skybox_step(false, true, None, true), (SkyboxStep::Wait, false));
}

#[test]
fn skybox_stacked_image_becomes_six_layers() {
    let img = Some(SkyboxImage { layer_count: 1, width: 512, height: 3072 });
    assert_eq!(
        skybox_step(false, true, img, true),
        (SkyboxStep::Finish { stack_layers: Some(6), attach: true }, true)
    );
    let cube = Some(SkyboxImage { layer_count: 6, width: 512, height: 512 });
    assert_eq!(
        skybox_step(false, true, cube, true),
        (SkyboxStep::Finish { stack_layers: None, attach: true }, true)
    );
}

#[test]
fn skybox_runs_once() {
    let img = Some(SkyboxImage { layer_count: 1, width: 512, height: 3072 });
    let (_, loaded) = skybox_step(false, true, img, true);
    assert!(loaded);
    assert_eq!(skybox_step(loaded, true, img, true), (SkyboxStep::Wait, true));
}

#[test]
fn skybox_without_camera_is_retried() {
    let img = Some(SkyboxImage { layer_count: 1, width: 512, height: 3072 });
    let (step, loaded) = skybox_step(false, true, img, false);
    assert_eq!(step, SkyboxStep::Finish { stack_layers: Some(6), attach: false });
    assert!(!loaded);
    // the image now has its six layers; once a camera exists it is attached
    let reshaped = Some(SkyboxImage { layer_count: 6, width: 512, height: 512 });
    assert_eq!(
        skybox_step(loaded, true, reshaped, true),
        (SkyboxStep::Finish { stack_layers: None, attach: true }, true)
    );
}
