//! Parameters and configuration of a maximally stable extremal region (MSER)
//! detector.
//!
//! The region extraction itself is done by a native vision library; this crate
//! holds the part that is decided here: the nine tuning parameters, their
//! documented defaults, and the builder that resolves optional overrides into
//! a fully configured detector.
use vstd::prelude::*;

pub mod builder;
pub mod detector;
pub mod laws;
pub mod params;

verus! {

} // verus!
