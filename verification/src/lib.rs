//! Verified core of a proximity-query service over a fixed catalogue of solar
//! systems.
//!
//! The library holds what the service decides and computes on plain values:
//!
//! * [`spatial`] builds the catalogue index and answers lookups by id and by
//!   name, and name completion;
//! * [`query`] turns the answers of a spatial tree into the results of radius
//!   and nearest-neighbour queries;
//! * [`cache`] fingerprints the source data and frames, checks and accepts
//!   cache artifacts;
//! * [`handlers`], [`store`], [`error`] and [`middleware`] hold the rules of
//!   the request layer and of the catalogue store;
//! * [`names`], [`order`], [`seqs`], [`text`] and [`fxmap`] are what the
//!   others are made of, and [`models`] is the data they pass around.
//!
//! Real numbers never appear here. A coordinate or a distance is carried as
//! the 64-bit pattern of its double-precision value; arithmetic on them, the
//! spatial tree itself, the store and the network are the caller's.

pub mod cache;
pub mod error;
pub mod fxmap;
pub mod handlers;
pub mod middleware;
pub mod models;
pub mod names;
pub mod order;
pub mod query;
pub mod seqs;
pub mod spatial;
pub mod store;
pub mod text;
