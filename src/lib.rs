//! An in-memory product catalog: records of a name, a weight and a unit,
//! kept in insertion order and looked up by name with ASCII case folding.
use vstd::prelude::*;

pub mod catalog;
pub mod input;
pub mod name_match;
pub mod weight;

verus! {

} // verus!
