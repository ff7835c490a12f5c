//! Verification of deployed contract bytecode against a locally built artifact.
use vstd::prelude::*;

pub mod args;
pub mod bytes;
pub mod env;
pub mod matcher;
pub mod pipeline;
pub mod replay;
pub mod session;
pub mod types;

verus! {

} // verus!
