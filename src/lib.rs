//! Converts a comma-separated table into a JSON array of objects, keeping a
//! chosen set of columns and giving each cell a JSON type.
use vstd::prelude::*;

pub mod cell;
pub mod converter;
pub mod json;
pub mod laws;
pub mod projection;

verus! {

} // verus!
