//! Verified core of the wildlife simulation: classification enums, terrain
//! flags and grids, the calendar, plant growth, behaviour selection, path
//! reconstruction and tick scheduling.

pub mod text;
pub mod types;
pub mod climate;
pub mod terrain;
pub mod grid;
pub mod pathfinding;
pub mod behavior;
pub mod plants;
pub mod schedule;
pub mod bridge;
pub mod cache;
pub mod movement;
pub mod raster;
pub mod service;
pub mod combat;
