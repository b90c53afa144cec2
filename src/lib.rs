use vstd::prelude::*;

pub mod image;
pub mod parameters;
pub mod setup;
pub mod trace;
pub mod writer;

verus! {

} // verus!
