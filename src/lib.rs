//! Modelling of the artifacts that go into a binary embedding a Python
//! interpreter: where their bytes live, where they resolve on disk, how
//! extension-module variants are chosen, and how a builder accumulates them
//! into an embedding context.

pub mod binary;
pub mod laws;
pub mod location;
pub mod naming;
pub mod resource;
