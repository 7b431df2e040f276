//! Scaffolding for a layered multi-crate workspace.
//!
//! The library has two halves: a declarative dependency graph builder
//! ([`graph::mappings`]), which maps each generated crate to its ordered
//! dependency list, and a planner ([`plan::make_plan`]) that turns the graph
//! and a destination into the exact sequence of filesystem actions and
//! package-manager command lines to run. Running those commands is left to
//! the caller; everything computed here is specified and verified.

pub mod graph;
pub mod plan;
pub mod text;
