use tileworld::camera::{
    camera_move_direction, camera_speed, camera_zoom_scale, CameraAction, CAMERA_SPEED,
    SUPERSPEED_MULTIPLIER,
};
use tileworld::game_ui::{apply_settings, UnappliedSettings};
use tileworld::noise_generator::{NoiseGenerator, NoiseValues};
use tileworld::IVec2;

#[test]
fn move_direction_sums_pressed_actions() {
    assert_eq!(camera_move_direction(false, false, false, false), IVec2 { x: 0, y: 0 });
    assert_eq!(camera_move_direction(true, false, false, false), IVec2 { x: 0, y: 1 });
    assert_eq!(camera_move_direction(false, true, false, false), IVec2 { x: 0, y: -1 });
    assert_eq!(camera_move_direction(false, false, true, false), IVec2 { x: -1, y: 0 });
    assert_eq!(camera_move_direction(false, false, false, true), IVec2 { x: 1, y: 0 });
    assert_eq!(camera_move_direction(true, false, false, true), IVec2 { x: 1, y: 1 });
    // opposite directions cancel
    assert_eq!(camera_move_direction(true, true, true, true), IVec2 { x: 0, y: 0 });
}

#[test]
fn speed_multiplies_under_superspeed() {
    assert_eq!(camera_speed(false), CAMERA_SPEED);
    assert_eq!(camera_speed(true), CAMERA_SPEED * SUPERSPEED_MULTIPLIER);
    assert_eq!(camera_speed(true), 1000);
}

#[test]
fn zoom_prefers_zooming_in() {
    assert_eq!(camera_zoom_scale(true, false, 1), 2);
    assert_eq!(camera_zoom_scale(false, true, 2), 1);
    assert_eq!(camera_zoom_scale(true, true, 1), 2);
    assert_eq!(camera_zoom_scale(false, false, 7), 7);
}

#[test]
fn camera_actions_are_distinct() {
    let actions = [
        CameraAction::ZoomIn,
        CameraAction::ZoomOut,
        CameraAction::Move,
        CameraAction::Superspeed,
        CameraAction::Up,
        CameraAction::Down,
        CameraAction::Left,
        CameraAction::Right,
    ];
    for (i, a) in actions.iter().enumerate() {
        for (j, b) in actions.iter().enumerate() {
            assert_eq!(i == j, a == b);
        }
    }
}

#[test]
fn applying_settings_swaps_values_and_requests_regeneration() {
    let mut map_gen = NoiseGenerator::new(42, NoiseValues::default());
    let pending = UnappliedSettings { map_generator_values: NoiseValues { resolution: 70_000 } };

    let no_click = apply_settings(&mut map_gen, &pending, false);
    assert!(no_click.is_none());
    assert_eq!(map_gen.values.resolution, 35_000);

    let clicked = apply_settings(&mut map_gen, &pending, true);
    assert!(clicked.is_some());
    assert_eq!(map_gen.values.resolution, 70_000);
    assert_eq!(map_gen.seed, 42);
}
