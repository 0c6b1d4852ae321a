//! Movement of the entities that follow the movement input.

use vstd::prelude::*;
use crate::components::{Position, Velocity};
use crate::constants::{K_HEIGHT, K_OCEAN_LAND_BORDER, K_SPEED, K_WIDTH};

verus! {

/// The distance covered in `delta_ns` nanoseconds at full speed, rounded
/// down to a thousandth of a world unit.
pub open spec fn stride(delta_ns: u64) -> int {
    (K_SPEED * delta_ns) / 1_000_000_000
}

/// The coordinate nearest to `v` that a position can hold.
pub open spec fn clamped(v: int) -> i64 {
    if v < i64::MIN {
        i64::MIN
    } else if v > i64::MAX {
        i64::MAX
    } else {
        v as i64
    }
}

/// Where an entity at `x` is after moving with `velocity` for `delta_ns`
/// nanoseconds. A positive velocity leads towards smaller x.
pub open spec fn advanced(x: i64, velocity: i32, delta_ns: u64) -> i64 {
    clamped(x - stride(delta_ns) * velocity)
}

/// The x coordinate beyond which the camera sinks below the surface: the
/// middle of the first screen of ocean.
pub open spec fn dive_line() -> int {
    K_OCEAN_LAND_BORDER + K_WIDTH / 2
}

/// The height of a camera at `x` that was at height `y` before: it sinks
/// at full speed beyond the dive line and rises before it, between the
/// bottom of the screen and its middle.
pub open spec fn camera_height(x: i64, y: i64, delta_ns: u64) -> i64 {
    let target = if x >= dive_line() {
        y - stride(delta_ns)
    } else {
        y + stride(delta_ns)
    };
    if target < -(K_HEIGHT / 2) {
        (-(K_HEIGHT / 2)) as i64
    } else if target > 0 {
        0
    } else {
        target as i64
    }
}

/// Where a controlled entity is after `delta_ns` nanoseconds; `camera`
/// says whether it is the camera, which also changes its height.
pub open spec fn moved(position: Position, velocity: Velocity, camera: bool, delta_ns: u64) -> Position {
    let x = advanced(position.x, velocity.value, delta_ns);
    Position {
        x,
        y: if camera {
            camera_height(x, position.y, delta_ns)
        } else {
            position.y
        },
        z: position.z,
    }
}

/// The distance covered in `delta_ns` nanoseconds at full speed.
pub fn stride_of(delta_ns: u64) -> (s: i64)
    ensures
        s == stride(delta_ns),
        0 <= s <= 2_767_011_611_056_432,
{
    let product: u128 = K_SPEED as u128 * delta_ns as u128;
    (product / 1_000_000_000) as i64
}

/// Where an entity at `x` is after moving with `velocity` for `delta_ns`
/// nanoseconds.
pub fn advance(x: i64, velocity: i32, delta_ns: u64) -> (r: i64)
    ensures
        r == advanced(x, velocity, delta_ns),
{
    let step: i128 = stride_of(delta_ns) as i128;
    assert(-2_767_011_611_056_432 * 0x8000_0000 <= step * velocity <= 2_767_011_611_056_432
        * 0x8000_0000) by (nonlinear_arith)
        requires
            0 <= step <= 2_767_011_611_056_432,
            -0x8000_0000 <= velocity < 0x8000_0000,
    ;
    let target: i128 = x as i128 - step * velocity as i128;
    if target < i64::MIN as i128 {
        i64::MIN
    } else if target > i64::MAX as i128 {
        i64::MAX
    } else {
        target as i64
    }
}

/// Moves a controlled entity for `delta_ns` nanoseconds.
pub fn move_control(delta_ns: u64, position: &mut Position, velocity: &Velocity, camera: bool)
    ensures
        *final(position) == moved(*old(position), *velocity, camera, delta_ns),
{
    position.x = advance(position.x, velocity.value, delta_ns);
    if camera {
        let step: i128 = stride_of(delta_ns) as i128;
        let target: i128 = if position.x as i128 >= K_OCEAN_LAND_BORDER as i128 + K_WIDTH as i128 / 2 {
            position.y as i128 - step
        } else {
            position.y as i128 + step
        };
        let floor: i128 = -(K_HEIGHT as i128 / 2);
        position.y = if target < floor {
            floor as i64
        } else if target > 0 {
            0
        } else {
            target as i64
        };
    }
}

} // verus!
