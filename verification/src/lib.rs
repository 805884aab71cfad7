use vstd::prelude::*;

pub mod ctx;
pub mod decimal;
pub mod error;
pub mod json;
pub mod laws;
pub mod outside;
pub mod qdrant;
pub mod registry;
pub mod store;
pub mod table;

verus! {

} // verus!
