//! Behaviour of the hazard catalogue, the car control rules, the road layout
//! and the spawn/despawn rules, on concrete values.

use crashem::car::crash_sound_index;
use crashem::car::correct_car_torque;
use crashem::car::drive_force_milli;
use crashem::car::friction_change;
use crashem::car::initial_model_yaw_mdeg;
use crashem::car::LaneDirection;
use crashem::car::TorqueAction;
use crashem::pertubator::BodyKind;
use crashem::pertubator::HazardEffect;
use crashem::pertubator::Pertubator;
use crashem::pertubator::WheelTag;
use crashem::road::car_spawner_plan;
use crashem::road::lane_edge_z_milli;
use crashem::road::standard_road;
use crashem::road::LaneScene;
use crashem::road::LaneType;
use crashem::spawning::may_spawn;
use crashem::spawning::should_despawn;
use crashem::spawning::spawner_position_milli;

#[test]
fn pertubator_names() {
    assert_eq!(Pertubator::Spring.name(), "Spring");
    assert_eq!(Pertubator::Nails.name(), "Nails");
    assert_eq!(Pertubator::Soap.name(), "Sludge");
    assert_eq!(Pertubator::Barrel.name(), "Barrel");
}

#[test]
fn pertubator_costs() {
    assert_eq!(Pertubator::Spring.cost(), 100);
    assert_eq!(Pertubator::Nails.cost(), 10);
    assert_eq!(Pertubator::Soap.cost(), -1);
    assert_eq!(Pertubator::Barrel.cost(), 1000);
}

#[test]
fn pertubator_scales() {
    assert_eq!(Pertubator::Spring.scale(), 1);
    assert_eq!(Pertubator::Nails.scale(), 2);
    assert_eq!(Pertubator::Soap.scale(), 2);
    assert_eq!(Pertubator::Barrel.scale(), 2);
}

#[test]
fn pertubator_effects() {
    assert_eq!(
        Pertubator::Spring.effect(),
        HazardEffect::WreckOnCarContact { active_ms: 2000 }
    );
    assert_eq!(
        Pertubator::Nails.effect(),
        HazardEffect::TagWheel { tag: WheelTag::Nailed, active_ms: 1000 }
    );
    assert_eq!(
        Pertubator::Soap.effect(),
        HazardEffect::TagWheel { tag: WheelTag::Soaped, active_ms: 1000 }
    );
    assert_eq!(
        Pertubator::Barrel.effect(),
        HazardEffect::Explode { radius_milli: 15000, impulse_milli: 50000, active_ms: 100 }
    );
}

#[test]
fn pertubator_bodies_and_colliders() {
    assert_eq!(Pertubator::Spring.body_kind(), BodyKind::Kinematic);
    assert_eq!(Pertubator::Nails.body_kind(), BodyKind::Static);
    assert_eq!(Pertubator::Soap.body_kind(), BodyKind::Static);
    assert_eq!(Pertubator::Barrel.body_kind(), BodyKind::Static);
    assert_eq!(Pertubator::Spring.collider_cylinder_milli(), (1000, 4000));
    assert_eq!(Pertubator::Nails.collider_cylinder_milli(), (500, 500));
    assert_eq!(Pertubator::Soap.collider_cylinder_milli(), (500, 500));
    assert_eq!(Pertubator::Barrel.collider_cylinder_milli(), (250, 250));
}

#[test]
fn drive_force_applies_below_target() {
    assert_eq!(drive_force_milli(false, 4000, 5000, LaneDirection::PosX, 0), 15000);
    assert_eq!(drive_force_milli(false, 4000, 5000, LaneDirection::NegX, 100), -14900);
}

#[test]
fn drive_force_at_target_still_applies() {
    assert_eq!(drive_force_milli(false, 5000, 5000, LaneDirection::PosX, 0), 15000);
}

#[test]
fn drive_force_skips_fast_or_wrecked() {
    assert_eq!(drive_force_milli(false, 5001, 5000, LaneDirection::PosX, 7), 7);
    assert_eq!(drive_force_milli(true, 0, 5000, LaneDirection::PosX, 7), 7);
}

#[test]
fn torque_correction_applies_with_sign_of_axis() {
    assert_eq!(
        correct_car_torque(false, 5000, 2000, 10000, 500),
        TorqueAction::Counteract { positive: true }
    );
    assert_eq!(
        correct_car_torque(false, 5000, 2000, -10000, -500),
        TorqueAction::Counteract { positive: false }
    );
}

#[test]
fn torque_correction_guards() {
    // Wrecked cars are left alone.
    assert_eq!(correct_car_torque(true, 0, 2000, 0, 500), TorqueAction::Leave);
    // Too tilted.
    assert_eq!(correct_car_torque(false, 10001, 2000, 0, 500), TorqueAction::Leave);
    // Within the tolerated deviation.
    assert_eq!(correct_car_torque(false, 5000, 999, 0, 500), TorqueAction::Leave);
    // Spinning too fast, in either direction.
    assert_eq!(correct_car_torque(false, 5000, 2000, 36001, 500), TorqueAction::Leave);
    assert_eq!(correct_car_torque(false, 5000, 2000, -36001, 500), TorqueAction::Leave);
    // At each threshold the correction still applies.
    assert_eq!(
        correct_car_torque(false, 10000, 1000, 36000, 500),
        TorqueAction::Counteract { positive: true }
    );
}

#[test]
fn friction_table() {
    assert_eq!(friction_change(true, true, true, true), (200, true));
    assert_eq!(friction_change(true, true, true, false), (20, true));
    assert_eq!(friction_change(true, true, false, true), (600, true));
    assert_eq!(friction_change(true, true, false, false), (150, true));
}

#[test]
fn friction_change_wrecks_only_wheels_with_parents() {
    assert_eq!(friction_change(true, false, true, false).1, false);
    assert_eq!(friction_change(false, true, true, false).1, false);
    assert_eq!(friction_change(true, true, false, true).1, true);
}

#[test]
fn crash_sound_cutoffs() {
    assert_eq!(crash_sound_index(0), 0);
    assert_eq!(crash_sound_index(9999), 0);
    assert_eq!(crash_sound_index(10000), 1);
    assert_eq!(crash_sound_index(19999), 1);
    assert_eq!(crash_sound_index(20000), 2);
    assert_eq!(crash_sound_index(u64::MAX), 2);
}

#[test]
fn model_yaw_by_direction() {
    assert_eq!(initial_model_yaw_mdeg(LaneDirection::PosX), 90000);
    assert_eq!(initial_model_yaw_mdeg(LaneDirection::NegX), 270000);
}

#[test]
fn spawn_needs_room_timer_and_headcount() {
    assert!(may_spawn(71, true, 0));
    assert!(!may_spawn(72, true, 0));
    assert!(!may_spawn(71, false, 0));
    assert!(!may_spawn(71, true, 1));
}

#[test]
fn spawner_stands_before_the_road() {
    assert_eq!(spawner_position_milli(LaneDirection::PosX, -14000), (-65000, 2000, -14000));
    assert_eq!(spawner_position_milli(LaneDirection::NegX, 6000), (65000, 2000, 6000));
}

#[test]
fn despawn_bounds() {
    assert!(!should_despawn(72500, 0, 0));
    assert!(should_despawn(72501, 0, 0));
    assert!(!should_despawn(0, -10000, 72500));
    assert!(should_despawn(0, -10001, 0));
    // 51300^2 + 51300^2 > 72500^2, while 51200^2 + 51200^2 is not.
    assert!(should_despawn(51300, 0, 51300));
    assert!(!should_despawn(51200, 0, 51200));
}

#[test]
fn lane_scenes_and_colliders() {
    assert_eq!(LaneType::Border.scene(), LaneScene::Border);
    assert_eq!(LaneType::Separator.scene(), LaneScene::Separator);
    assert_eq!(LaneType::LeftToRight.scene(), LaneScene::Straight);
    assert_eq!(LaneType::RightToLeft.scene(), LaneScene::Straight);
    assert!(LaneType::Separator.has_collider());
    assert!(!LaneType::Border.has_collider());
    assert!(!LaneType::LeftToRight.has_collider());
}

#[test]
fn lane_edge_lines() {
    // Eleven lanes span 44 units; lane 0 runs from -22 to -18 units, so its
    // far edge sits at -18.
    assert_eq!(lane_edge_z_milli(0, 11), -18000);
    assert_eq!(lane_edge_z_milli(1, 11), -14000);
    assert_eq!(lane_edge_z_milli(10, 11), 22000);
}

#[test]
fn standard_road_spawners() {
    let lanes = standard_road();
    assert_eq!(lanes.len(), 11);
    let plan = car_spawner_plan(&lanes);
    let expected = vec![
        (LaneDirection::PosX, -14000),
        (LaneDirection::PosX, -10000),
        (LaneDirection::PosX, -6000),
        (LaneDirection::NegX, 6000),
        (LaneDirection::NegX, 10000),
        (LaneDirection::NegX, 14000),
    ];
    assert_eq!(plan, expected);
}

#[test]
fn lone_border_gets_no_spawner() {
    // A border with no driving lane after it contributes nothing.
    let lanes = vec![LaneType::Border, LaneType::Separator, LaneType::Border];
    assert_eq!(car_spawner_plan(&lanes), vec![]);
}

#[test]
fn border_takes_direction_of_next_lane() {
    let lanes = vec![LaneType::Border, LaneType::RightToLeft];
    assert_eq!(
        car_spawner_plan(&lanes),
        vec![(LaneDirection::NegX, 0), (LaneDirection::NegX, 4000)]
    );
}
