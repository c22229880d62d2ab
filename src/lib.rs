//! Launching external build and packaging tools and making sense of what
//! they report: the argument vectors of the make driver, of nix and of the
//! container loaders; the ordered sequence of output events of a child
//! process and what a consumer collects from it; and the sinks a container
//! image is streamed into.
use vstd::prelude::*;

pub mod builder;
pub mod command;
pub mod command_line;
pub mod containerize;
pub mod output;
pub mod sink;

verus! {

} // verus!
