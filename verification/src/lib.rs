//! Generation of forwarding implementations for wrapper components.
//!
//! A wrapper structure in a terminal-UI application typically holds an inner
//! "backend" component in one of its fields and satisfies the framework's
//! mock-component interface purely by forwarding every call to that field.
//! This crate contains the generator that produces such a forwarding layer:
//! it inspects a description of the structure (name, generic parameters,
//! named fields, optional delegate-naming directive), validates that the
//! designated delegate field exists, and assembles the implementation block
//! that forwards the five fixed operations to it.
//!
//! The generator is a pure function from descriptions to descriptions; the
//! surrounding compile pipeline parses source tokens into a
//! [`descriptor::StructInput`] and turns the resulting
//! [`descriptor::ImplBlock`] (or its rendered source text) back into tokens.

pub mod descriptor;
pub mod generate;
pub mod render;
pub mod laws;
