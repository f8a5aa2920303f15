//! Static world layout and entity blueprints: every number the startup and
//! spawning callbacks hand to the engine, in thousandths of a world unit.

use vstd::prelude::*;

verus! {

/// Number of ground tiles laid at startup.
pub const GROUND_TILE_COUNT: usize = 10;

/// The player's starting position.
pub const PLAYER_START_X_MILLI: i64 = 0;

pub const PLAYER_START_Y_MILLI: i64 = 300_000;

/// An axis-aligned box: a center and half extents, in thousandths of a
/// world unit.
#[derive(Clone, Copy, Debug, PartialEq, Eq, Structural)]
pub struct BoxShape {
    pub center_x_milli: i64,
    pub center_y_milli: i64,
    pub half_width_milli: i64,
    pub half_height_milli: i64,
}

/// Everything a new cart is made of: where it appears, how fast it rolls
/// right, how many fish it holds, its sensor basin, and the three solid
/// walls its child collider is built from.
#[derive(Clone, Copy, Debug, PartialEq, Eq, Structural)]
pub struct CartBlueprint {
    pub spawn_x_milli: i64,
    pub spawn_y_milli: i64,
    /// Constant rightward velocity, in thousandths of a unit per second.
    pub velocity_x_milli: i64,
    /// Most fish the cart holds before it breaks.
    pub capacity: usize,
    /// The sensor volume whose live fish count drives scoring.
    pub basin: BoxShape,
    pub left_wall: BoxShape,
    pub right_wall: BoxShape,
    pub floor: BoxShape,
}

/// Everything a new fish is made of besides its spawn position: collision
/// capsule, bounce and friction (in thousandths), downward launch impulse,
/// and gravity scale.
#[derive(Clone, Copy, Debug, PartialEq, Eq, Structural)]
pub struct FishBlueprint {
    pub capsule_half_length_milli: i64,
    pub capsule_radius_milli: i64,
    pub restitution_milli: i64,
    pub friction_milli: i64,
    pub impulse_y_milli: i64,
    pub gravity_scale: i64,
}

/// The blueprint every cart is spawned from: off screen on the left,
/// rolling right at a constant speed, holding up to fifteen fish.
pub fn cart_blueprint() -> (b: CartBlueprint)
    ensures
        b.spawn_x_milli == -650_000,
        b.spawn_y_milli == -241_000,
        b.velocity_x_milli == 100_000,
        b.capacity == 15,
        b.basin == (BoxShape {
            center_x_milli: 0,
            center_y_milli: 8_000,
            half_width_milli: 80_000,
            half_height_milli: 58_000,
        }),
        b.left_wall == (BoxShape {
            center_x_milli: -85_000i64,
            center_y_milli: -2_000i64,
            half_width_milli: 5_000,
            half_height_milli: 68_000,
        }),
        b.right_wall == (BoxShape {
            center_x_milli: 85_000,
            center_y_milli: -2_000i64,
            half_width_milli: 5_000,
            half_height_milli: 68_000,
        }),
        b.floor == (BoxShape {
            center_x_milli: 0,
            center_y_milli: -60_000i64,
            half_width_milli: 85_000,
            half_height_milli: 10_000,
        }),
{
    CartBlueprint {
        spawn_x_milli: -650_000,
        spawn_y_milli: -241_000,
        velocity_x_milli: 100_000,
        capacity: 15,
        basin: BoxShape {
            center_x_milli: 0,
            center_y_milli: 8_000,
            half_width_milli: 80_000,
            half_height_milli: 58_000,
        },
        left_wall: BoxShape {
            center_x_milli: -85_000,
            center_y_milli: -2_000,
            half_width_milli: 5_000,
            half_height_milli: 68_000,
        },
        right_wall: BoxShape {
            center_x_milli: 85_000,
            center_y_milli: -2_000,
            half_width_milli: 5_000,
            half_height_milli: 68_000,
        },
        floor: BoxShape {
            center_x_milli: 0,
            center_y_milli: -60_000,
            half_width_milli: 85_000,
            half_height_milli: 10_000,
        },
    }
}

/// The blueprint every fish is spawned from: a small bouncy capsule
/// launched downward under ten-fold gravity.
pub fn fish_blueprint() -> (b: FishBlueprint)
    ensures
        b.capsule_half_length_milli == 10_000,
        b.capsule_radius_milli == 10_000,
        b.restitution_milli == 700,
        b.friction_milli == 80,
        b.impulse_y_milli == -250,
        b.gravity_scale == 10,
{
    FishBlueprint {
        capsule_half_length_milli: 10_000,
        capsule_radius_milli: 10_000,
        restitution_milli: 700,
        friction_milli: 80,
        impulse_y_milli: -250,
        gravity_scale: 10,
    }
}

/// The fixed ground slab the carts roll along.
pub fn ground_collider() -> (b: BoxShape)
    ensures
        b == (BoxShape {
            center_x_milli: 0,
            center_y_milli: -337_000i64,
            half_width_milli: 800_000,
            half_height_milli: 20_000,
        }),
{
    BoxShape {
        center_x_milli: 0,
        center_y_milli: -337_000,
        half_width_milli: 800_000,
        half_height_milli: 20_000,
    }
}

/// The x coordinate of the i-th ground tile: tiles sit side by side, one
/// tile width apart, starting at the left edge.
pub fn ground_tile_x_milli(i: usize) -> (x: i64)
    requires
        i < GROUND_TILE_COUNT,
    ensures
        x == -576_000 + 128_000 * (i as int),
{
    -576_000 + 128_000 * (i as i64)
}

} // verus!
