//! Race-simulation core: the data model, the layered estimation pipeline,
//! confidence scoring, input validation and the race bookkeeping, verified
//! with Verus.  Numeric measurements are carried through the library as an
//! opaque scalar type `N`; the library never computes with them, it only
//! selects, copies and compares them through caller-supplied functions.

pub mod catalog;
pub mod confidence;
pub mod config;
pub mod estimation;
pub mod solver;
pub mod text;
pub mod types;
pub mod validation;
