//! Build a workspace binary, ask a reverse-engineering backend to decompile one
//! of its functions, and render the answer for a terminal.
//!
//! The library decides and computes; it starts no process and prints nothing.
//! A caller performs each [`workflow::Action`] and reports what happened.

pub mod build_driver;
pub mod highlight;
pub mod options;
pub mod spans;
pub mod syntect_calls;
pub mod text;
pub mod tool;
pub mod visible;
pub mod workflow;
