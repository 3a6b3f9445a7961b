use vstd::prelude::*;

pub mod bind;
pub mod closure;
pub mod hunk;
pub mod kernel;
pub mod sync;
pub mod time;
pub mod utils;

verus! {
} // verus!
