//! Decision rules of a lane-traffic wrecking game.
//!
//! Traffic drives along fixed lanes; the player places hazards (a spring, a
//! nail trap, a sludge patch, an explosive barrel) to wreck cars, and crashes
//! feed a score and a money balance that buys further hazards.  The engine
//! that renders the scene and steps the physics is not part of this crate;
//! what lives here are the game's own rules: the hazard catalogue, the
//! per-frame car control thresholds, the road layout and spawner placement,
//! the spawn/despawn bounds, the friction table, and the scoring and shop
//! economy.
//!
//! All physical quantities are carried as integers in milli-units so that
//! every threshold is exact: positions, speeds and impulses in thousandths of
//! a world unit, angles in millidegrees, durations in milliseconds.

pub mod car;
pub mod consts;
pub mod pertubator;
pub mod points_money;
pub mod road;
pub mod spawning;
pub mod util;
