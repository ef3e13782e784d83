//! Error classification and propagation for a Wavefront-style model loader.
//!
//! Two layers compose: [`error::LoadError`] names the semantic failure causes
//! that document validation can detect, and [`error::ObjError`] aggregates
//! every failure source (I/O, numeric conversion, semantic) into the single
//! failure type that loading operations return.

pub mod error;
