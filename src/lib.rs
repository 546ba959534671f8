use vstd::prelude::*;

pub mod command;
pub mod elevation;
pub mod engine;
pub mod listing;
pub mod paths;
pub mod registry;
pub mod settings;
pub mod text;

verus! {

} // verus!
