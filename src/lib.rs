use vstd::prelude::*;

pub mod cache;
pub mod commands;
pub mod events;
pub mod extensions;
pub mod reconcile;
pub mod records;
pub mod scheduler;
pub mod tracker;
pub mod version;

verus! {

} // verus!
