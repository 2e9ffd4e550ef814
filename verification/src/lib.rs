//! Verified binding layer of the Weiss Schwarz batched simulator.
//!
//! The engine itself lives elsewhere; this crate holds the decisions that
//! the Python binding makes around it: the layout of the batched output
//! buffers, the shape and length checks that every pool call runs before it
//! touches the engine (and the order in which their errors are reported),
//! the parsing of the textual configuration options, the description of
//! actions handed back to Python, and the contents of the Python module.
use vstd::prelude::*;

pub mod errors;
pub mod shape;
pub mod layout;
pub mod batch_minimal;
pub mod batch_trajectory;
pub mod batch_debug;
pub mod pool;
pub mod config;
pub mod action;
pub mod module;

verus! {

} // verus!
