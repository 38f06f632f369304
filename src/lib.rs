//! Orchestration logic for a desktop agent that fixes repository issues:
//! normalising tool-call results, validating runner definitions, planning
//! agent jobs and tracking their lifecycle, and sealing tokens at rest.
use vstd::prelude::*;

pub mod text;
pub mod json;
pub mod models;
pub mod issues;
pub mod pulls;
pub mod runner;
pub mod agent;
pub mod tools;
pub mod settings;
pub mod crypto;

verus! {

} // verus!
