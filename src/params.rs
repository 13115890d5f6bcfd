use vstd::prelude::*;

verus! {

/// A real-valued tuning parameter, held as its IEEE 754 binary64 encoding.
///
/// The library never computes with these values; it only carries them from the
/// caller to the native detector, so the exact bit pattern is kept.
#[derive(Clone, Copy, Debug, PartialEq, Eq, Structural)]
pub struct Binary64 {
    pub bits: u64,
}

/// Default `delta`: the intensity step over which region stability is compared.
pub const DEFAULT_DELTA: i32 = 5;

/// Default `min_area`, in pixels.
pub const DEFAULT_MIN_AREA: i32 = 60;

/// Default `max_area`, in pixels.
pub const DEFAULT_MAX_AREA: i32 = 14400;

/// Encoding of the default `max_variation`, 0.25.
pub const DEFAULT_MAX_VARIATION_BITS: u64 = 0x3fd0_0000_0000_0000;

/// Encoding of the default `min_diversity`, 0.2.
pub const DEFAULT_MIN_DIVERSITY_BITS: u64 = 0x3fc9_9999_9999_999a;

/// Default `max_evolution`, the number of evolution steps for colour images.
pub const DEFAULT_MAX_EVOLUTION: i32 = 200;

/// Encoding of the default `area_threshold`, 1.01.
pub const DEFAULT_AREA_THRESHOLD_BITS: u64 = 0x3ff0_28f5_c28f_5c29;

/// Encoding of the default `min_margin`, 0.003.
pub const DEFAULT_MIN_MARGIN_BITS: u64 = 0x3f68_9374_bc6a_7efa;

/// Default `edge_blur_size`, the aperture of the edge blur.
pub const DEFAULT_EDGE_BLUR_SIZE: i32 = 5;

/// The nine fully resolved tuning parameters of an MSER detector.
#[derive(Clone, Copy, Debug, PartialEq, Eq, Structural)]
pub struct MserParams {
    pub delta: i32,
    pub min_area: i32,
    pub max_area: i32,
    pub max_variation: Binary64,
    pub min_diversity: Binary64,
    pub max_evolution: i32,
    pub area_threshold: Binary64,
    pub min_margin: Binary64,
    pub edge_blur_size: i32,
}

impl MserParams {
    /// The documented default of every parameter.
    pub open spec fn spec_defaults() -> MserParams {
        MserParams {
            delta: DEFAULT_DELTA,
            min_area: DEFAULT_MIN_AREA,
            max_area: DEFAULT_MAX_AREA,
            max_variation: Binary64 { bits: DEFAULT_MAX_VARIATION_BITS },
            min_diversity: Binary64 { bits: DEFAULT_MIN_DIVERSITY_BITS },
            max_evolution: DEFAULT_MAX_EVOLUTION,
            area_threshold: Binary64 { bits: DEFAULT_AREA_THRESHOLD_BITS },
            min_margin: Binary64 { bits: DEFAULT_MIN_MARGIN_BITS },
            edge_blur_size: DEFAULT_EDGE_BLUR_SIZE,
        }
    }

    /// Every parameter at its documented default.
    pub fn defaults() -> (r: MserParams)
        ensures
            r == MserParams::spec_defaults(),
    {
        MserParams {
            delta: DEFAULT_DELTA,
            min_area: DEFAULT_MIN_AREA,
            max_area: DEFAULT_MAX_AREA,
            max_variation: Binary64 { bits: DEFAULT_MAX_VARIATION_BITS },
            min_diversity: Binary64 { bits: DEFAULT_MIN_DIVERSITY_BITS },
            max_evolution: DEFAULT_MAX_EVOLUTION,
            area_threshold: Binary64 { bits: DEFAULT_AREA_THRESHOLD_BITS },
            min_margin: Binary64 { bits: DEFAULT_MIN_MARGIN_BITS },
            edge_blur_size: DEFAULT_EDGE_BLUR_SIZE,
        }
    }
}

} // verus!
