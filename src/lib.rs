//! Bonding-curve token launches: constant-product pricing with a platform fee,
//! a per-token trading state machine that launches once a reserve target is
//! reached, and the platform configuration that seeds each launch.
pub mod constants;
pub mod errors;
pub mod identity;
pub mod launch;
pub mod platform;
pub mod registry;
pub mod utils;
