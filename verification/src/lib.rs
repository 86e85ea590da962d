//! A verified model of a builder-pattern code generator.
//!
//! Given the structural description of a data structure (its name and its
//! ordered list of named, typed fields), the library classifies each field as
//! required or optional, and synthesizes the declarations of a companion
//! builder: an accumulator with one presence-tracked slot per field, one
//! setter per field, and a validating assembly operation.  A small dynamic
//! model of the generated accumulator is verified against the same
//! classification, so that the behaviour the generated code is meant to have
//! (all-or-nothing assembly, last-write-wins setters, declaration order kept)
//! is stated and proved here.

pub mod accumulator;
pub mod classify;
pub mod extract;
pub mod laws;
pub mod model;
pub mod synth;
