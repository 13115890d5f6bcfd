use vstd::prelude::*;

use crate::builder::MSERBuilder;
use crate::params::{Binary64, MserParams};

verus! {

/// Maximally stable extremal region extractor, configured with its nine
/// resolved parameters.
///
/// The native extraction context is created from these parameters by the
/// caller that owns it; a detector value is never duplicated, so one
/// configuration backs exactly one context.
#[derive(Debug)]
pub struct MSER {
    params: MserParams,
}

impl MSER {
    /// The parameters this detector was configured with.
    pub closed spec fn view(&self) -> MserParams {
        self.params
    }

    /// Creates a detector with the given parameters, taken as they are.
    pub fn new(
        delta: i32,
        min_area: i32,
        max_area: i32,
        max_variation: Binary64,
        min_diversity: Binary64,
        max_evolution: i32,
        area_threshold: Binary64,
        min_margin: Binary64,
        edge_blur_size: i32,
    ) -> (r: MSER)
        ensures
            r@ == (MserParams {
                delta,
                min_area,
                max_area,
                max_variation,
                min_diversity,
                max_evolution,
                area_threshold,
                min_margin,
                edge_blur_size,
            }),
    {
        MSER {
            params: MserParams {
                delta,
                min_area,
                max_area,
                max_variation,
                min_diversity,
                max_evolution,
                area_threshold,
                min_margin,
                edge_blur_size,
            },
        }
    }

    /// The parameters this detector was configured with.
    pub fn params(&self) -> (r: MserParams)
        ensures
            r == self@,
    {
        self.params
    }
}

impl From<MSERBuilder> for MSER {
    /// Builds the detector whose parameters the builder resolves to.
    fn from(b: MSERBuilder) -> (r: MSER)
        ensures
            r@ == b.spec_resolve(),
    {
        let p = b.resolve();
        MSER::new(
            p.delta,
            p.min_area,
            p.max_area,
            p.max_variation,
            p.min_diversity,
            p.max_evolution,
            p.area_threshold,
            p.min_margin,
            p.edge_blur_size,
        )
    }
}

impl vstd::std_specs::convert::FromSpecImpl<MSERBuilder> for MSER {
    open spec fn obeys_from_spec() -> bool {
        true
    }

    closed spec fn from_spec(b: MSERBuilder) -> MSER {
        MSER { params: b.spec_resolve() }
    }
}

} // verus!
