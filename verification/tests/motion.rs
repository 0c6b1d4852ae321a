use angler::components::{Position, Velocity};
use angler::constants::{K_HEIGHT, K_OCEAN_LAND_BORDER, K_SPEED, K_WIDTH};
use angler::motion::{advance, move_control, stride_of};

#[test]
fn stride_is_speed_times_time() {
    assert_eq!(stride_of(0), 0);
    assert_eq!(stride_of(1_000_000_000), K_SPEED);
    assert_eq!(stride_of(16_000_000), 2_400);
    assert_eq!(stride_of(6_666), 0);
    assert_eq!(stride_of(6_667), 1);
    assert_eq!(stride_of(u64::MAX), 2_767_011_611_056_432);
}

#[test]
fn positive_velocity_leads_left() {
    assert_eq!(advance(0, 1, 1_000_000_000), -150_000);
    assert_eq!(advance(0, -1, 1_000_000_000), 150_000);
    assert_eq!(advance(1_000, 0, 1_000_000_000), 1_000);
    assert_eq!(advance(1_000, 3, 16_000_000), 1_000 - 7_200);
}

#[test]
fn positions_stop_at_the_end_of_the_axis() {
    assert_eq!(advance(i64::MIN + 10, 1, 1_000_000_000), i64::MIN);
    assert_eq!(advance(i64::MAX - 10, -1, 1_000_000_000), i64::MAX);
    assert_eq!(advance(0, i32::MIN, u64::MAX), i64::MAX);
    assert_eq!(advance(0, i32::MAX, u64::MAX), i64::MIN);
    assert_eq!(advance(i64::MIN, i32::MIN, u64::MAX), i64::MAX);
}

#[test]
fn entities_keep_their_height() {
    let mut position = Position { x: 10, y: -264_000, z: 550 };
    move_control(1_000_000_000, &mut position, &Velocity { value: -1 }, false);
    assert_eq!(position, Position { x: 150_010, y: -264_000, z: 550 });
}

#[test]
fn the_camera_dives_beyond_the_first_screen_of_ocean() {
    let line = K_OCEAN_LAND_BORDER + K_WIDTH / 2;
    assert_eq!(line, 1_152_000);
    let mut camera = Position { x: line, y: 0, z: 0 };
    move_control(100_000_000, &mut camera, &Velocity { value: 0 }, true);
    assert_eq!(camera, Position { x: line, y: -15_000, z: 0 });
    move_control(100_000_000, &mut camera, &Velocity { value: 1 }, true);
    assert_eq!(camera, Position { x: line - 15_000, y: 0, z: 0 });
    move_control(100_000_000, &mut camera, &Velocity { value: 1 }, true);
    assert_eq!(camera.y, 0);

    let mut camera = Position { x: line + 1_000_000, y: -K_HEIGHT / 2 + 10_000, z: 0 };
    move_control(100_000_000, &mut camera, &Velocity { value: 0 }, true);
    assert_eq!(camera.y, -360_000);
    move_control(1_000_000, &mut camera, &Velocity { value: 0 }, true);
    assert_eq!(camera.y, -360_000);
    let mut camera = Position { x: 0, y: i64::MAX, z: 0 };
    move_control(u64::MAX, &mut camera, &Velocity { value: 0 }, true);
    assert_eq!(camera.y, 0);
    let mut camera = Position { x: i64::MAX, y: i64::MIN, z: 0 };
    move_control(u64::MAX, &mut camera, &Velocity { value: 0 }, true);
    assert_eq!(camera.y, -360_000);
}
