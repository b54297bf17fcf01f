//! A geodesic distance engine for airport routes.
//!
//! The library holds the verified core: the datum parameter table, the
//! calculator configuration produced by the factory, the route aggregation
//! that turns an ordered list of points into legs, the cache-aside lookup
//! layer for airport records, and the small decision rules around
//! credentials and health reporting. Floating-point evaluation of the
//! distance formulas is left to callers, who implement the
//! `DistanceCalculator` strategy interface; the values they produce flow
//! through the library as opaque bit patterns.

pub mod airports;
pub mod auth;
pub mod distance;
pub mod health;
pub mod models;
pub mod route;
pub mod strutil;
