//! A small polymorphic reward domain: descriptors are resolved into a closed
//! set of reward variants, wrapped in an ownership-carrying handle, displayed
//! through a uniform contract and optionally reclaimed as their concrete shape.

pub mod decimal;
pub mod factory;
pub mod handle;
pub mod js_map;
pub mod reward;
pub mod robot;
pub mod shelf_life;
pub mod timestamp;
pub mod traitor;
pub mod variant;
