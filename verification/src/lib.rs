use vstd::prelude::*;

pub mod batch;
pub mod errors;
pub mod iter;
pub mod laws;
pub mod model;
pub mod ops;

verus! {

} // verus!
