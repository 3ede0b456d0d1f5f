//! The numbers that the game is tuned with.

use vstd::prelude::*;

verus! {

/// Controlled entities stay within this distance of the vertical centre line.
pub const X_LIMIT: i64 = 276_000_000;

/// Controlled entities stay at most this far below the camera.
pub const BAND_BELOW: i64 = 276_000_000;

/// Controlled entities stay at most this far above the camera.
pub const BAND_ABOVE: i64 = 200_000_000;

/// How far in front of its shooter a bullet appears.
pub const MUZZLE_OFFSET: i64 = 60_000_000;

/// Speed of a bullet, in units per second.
pub const BULLET_SPEED: u32 = 500;

/// Hit points that a bullet takes.
pub const BULLET_DAMAGE: i16 = 10;

/// Microseconds that a bullet lives.
pub const BULLET_LIFETIME: u64 = 5_000_000;

/// Speed at which the camera climbs, in units per second.
pub const SCROLL_SPEED: u32 = 30;

/// Speed at which a chaser drifts upward, in units per second.
pub const CHASER_DRIFT: u32 = 30;

/// Hit points of a new player.
pub const PLAYER_HP: i16 = 100;

/// Speed of the player, in units per second.
pub const PLAYER_SPEED: u32 = 300;

/// Microseconds that the player waits between two shots.
pub const PLAYER_COOLDOWN: u64 = 100_000;

/// Hit points of a new chaser.
pub const CHASER_HP: i16 = 20;

/// Speed of a chaser, in units per second.
pub const CHASER_SPEED: u32 = 200;

/// Both coordinates of the place where the player and the first enemy start.
pub const START: i64 = 1_000_000;

} // verus!
