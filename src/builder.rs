use vstd::prelude::*;

use crate::params::{
    Binary64, MserParams, DEFAULT_AREA_THRESHOLD_BITS, DEFAULT_DELTA, DEFAULT_EDGE_BLUR_SIZE,
    DEFAULT_MAX_AREA, DEFAULT_MAX_EVOLUTION, DEFAULT_MAX_VARIATION_BITS, DEFAULT_MIN_AREA,
    DEFAULT_MIN_DIVERSITY_BITS, DEFAULT_MIN_MARGIN_BITS,
};

verus! {

/// Builder that accumulates optional overrides of the nine MSER parameters.
///
/// A field that is `None` has not been set and resolves to its documented
/// default; each setter overwrites whatever its field held before.
#[derive(Clone, Copy, Debug, PartialEq, Eq, Structural)]
pub struct MSERBuilder {
    pub delta: Option<i32>,
    pub min_area: Option<i32>,
    pub max_area: Option<i32>,
    pub max_variation: Option<Binary64>,
    pub min_diversity: Option<Binary64>,
    pub max_evolution: Option<i32>,
    pub area_threshold: Option<Binary64>,
    pub min_margin: Option<Binary64>,
    pub edge_blur_size: Option<i32>,
}

impl MSERBuilder {
    /// The builder with no override set.
    pub open spec fn spec_empty() -> MSERBuilder {
        MSERBuilder {
            delta: None,
            min_area: None,
            max_area: None,
            max_variation: None,
            min_diversity: None,
            max_evolution: None,
            area_threshold: None,
            min_margin: None,
            edge_blur_size: None,
        }
    }

    /// The parameters this builder stands for: each override where one was
    /// set, the documented default elsewhere.
    pub open spec fn spec_resolve(self) -> MserParams {
        let d = MserParams::spec_defaults();
        MserParams {
            delta: self.delta.unwrap_or(d.delta),
            min_area: self.min_area.unwrap_or(d.min_area),
            max_area: self.max_area.unwrap_or(d.max_area),
            max_variation: self.max_variation.unwrap_or(d.max_variation),
            min_diversity: self.min_diversity.unwrap_or(d.min_diversity),
            max_evolution: self.max_evolution.unwrap_or(d.max_evolution),
            area_threshold: self.area_threshold.unwrap_or(d.area_threshold),
            min_margin: self.min_margin.unwrap_or(d.min_margin),
            edge_blur_size: self.edge_blur_size.unwrap_or(d.edge_blur_size),
        }
    }

    /// Replaces the current `delta` with `value`.
    pub fn delta(self, value: i32) -> (r: Self)
        ensures
            r == (MSERBuilder { delta: Some(value), ..self }),
    {
        MSERBuilder { delta: Some(value), ..self }
    }

    /// Replaces the current `min_area` with `value`.
    pub fn min_area(self, value: i32) -> (r: Self)
        ensures
            r == (MSERBuilder { min_area: Some(value), ..self }),
    {
        MSERBuilder { min_area: Some(value), ..self }
    }

    /// Replaces the current `max_area` with `value`.
    pub fn max_area(self, value: i32) -> (r: Self)
        ensures
            r == (MSERBuilder { max_area: Some(value), ..self }),
    {
        MSERBuilder { max_area: Some(value), ..self }
    }

    /// Replaces the current `max_variation` with `value`.
    pub fn max_variation(self, value: Binary64) -> (r: Self)
        ensures
            r == (MSERBuilder { max_variation: Some(value), ..self }),
    {
        MSERBuilder { max_variation: Some(value), ..self }
    }

    /// Replaces the current `min_diversity` with `value`.
    pub fn min_diversity(self, value: Binary64) -> (r: Self)
        ensures
            r == (MSERBuilder { min_diversity: Some(value), ..self }),
    {
        MSERBuilder { min_diversity: Some(value), ..self }
    }

    /// Replaces the current `max_evolution` with `value`.
    pub fn max_evolution(self, value: i32) -> (r: Self)
        ensures
            r == (MSERBuilder { max_evolution: Some(value), ..self }),
    {
        MSERBuilder { max_evolution: Some(value), ..self }
    }

    /// Replaces the current `area_threshold` with `value`.
    pub fn area_threshold(self, value: Binary64) -> (r: Self)
        ensures
            r == (MSERBuilder { area_threshold: Some(value), ..self }),
    {
        MSERBuilder { area_threshold: Some(value), ..self }
    }

    /// Replaces the current `min_margin` with `value`.
    pub fn min_margin(self, value: Binary64) -> (r: Self)
        ensures
            r == (MSERBuilder { min_margin: Some(value), ..self }),
    {
        MSERBuilder { min_margin: Some(value), ..self }
    }

    /// Replaces the current `edge_blur_size` with `value`.
    pub fn edge_blur_size(self, value: i32) -> (r: Self)
        ensures
            r == (MSERBuilder { edge_blur_size: Some(value), ..self }),
    {
        MSERBuilder { edge_blur_size: Some(value), ..self }
    }

    /// Resolves every unset parameter to its documented default.
    pub fn resolve(self) -> (r: MserParams)
        ensures
            r == self.spec_resolve(),
    {
        MserParams {
            delta: self.delta.unwrap_or(DEFAULT_DELTA),
            min_area: self.min_area.unwrap_or(DEFAULT_MIN_AREA),
            max_area: self.max_area.unwrap_or(DEFAULT_MAX_AREA),
            max_variation: self.max_variation.unwrap_or(Binary64 { bits: DEFAULT_MAX_VARIATION_BITS }),
            min_diversity: self.min_diversity.unwrap_or(Binary64 { bits: DEFAULT_MIN_DIVERSITY_BITS }),
            max_evolution: self.max_evolution.unwrap_or(DEFAULT_MAX_EVOLUTION),
            area_threshold: self.area_threshold.unwrap_or(Binary64 { bits: DEFAULT_AREA_THRESHOLD_BITS }),
            min_margin: self.min_margin.unwrap_or(Binary64 { bits: DEFAULT_MIN_MARGIN_BITS }),
            edge_blur_size: self.edge_blur_size.unwrap_or(DEFAULT_EDGE_BLUR_SIZE),
        }
    }
}

impl Default for MSERBuilder {
    /// The builder with no override set.
    fn default() -> (r: MSERBuilder)
        ensures
            r == MSERBuilder::spec_empty(),
    {
        MSERBuilder {
            delta: None,
            min_area: None,
            max_area: None,
            max_variation: None,
            min_diversity: None,
            max_evolution: None,
            area_threshold: None,
            min_margin: None,
            edge_blur_size: None,
        }
    }
}

} // verus!
