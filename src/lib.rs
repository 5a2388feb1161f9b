//! A paste-storage engine: slug normalization, record validation,
//! password- and identity-based authorization, a read-through,
//! write-invalidate cache in front of a store, and view counting.
use vstd::prelude::*;

pub mod auth;
pub mod credentials;
pub mod database;
pub mod laws;
pub mod model;
pub mod normalize;
pub mod state;
pub mod utility;
pub mod validate;

verus! {

} // verus!
