//! CI workflow generator for Rust crates.
//!
//! A [`generator::Generator`] collects the configuration of a workflow
//! (name, branch filters, OS matrix, optional jobs, cargo flags, sibling
//! path dependencies) and renders it as a GitHub Actions YAML document.
//! The document that `generate` returns is specified exactly by
//! [`model::workflow_document`], a function of the configuration alone.

pub mod text;
pub mod model;
pub mod generator;
pub mod cli;
pub mod laws;
pub mod jobs;

pub use generator::{Generator, PathDep, Target};
